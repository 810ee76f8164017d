//! What single requests decide: a session's own question, a conversation, a file,
//! a challenge, and a call from an agent's tools.

use crate::access;
use crate::access::Challenges;
use crate::access::Credential;
use crate::access::Denial;
use crate::access::DiagnosticChallenge;
use crate::access::Grant;
use crate::access::SessionMethod;
use crate::keyed;
use crate::text;
use crate::web;
use crate::web::UrlParts;
use vstd::prelude::*;

verus! {

/// Text as the contracts see it.
pub type Text = Seq<char>;

// ---------------------------------------------------------------------------
// Am I signed in, and as what?
// ---------------------------------------------------------------------------

/// What a client is told of its session.
#[derive(Debug, PartialEq, Eq)]
pub enum SessionState<L> {
    Authenticated { scopes: L, method: Option<SessionMethod> },
    Unauthenticated,
}

/// What a client is told of its session. A refusal is an answer here and no
/// failure: this is what is asked before a client holds anything.
pub fn auth_session(admitted: Result<(Credential, Grant<String, Vec<String>>), Denial<String>>) -> (out: SessionState<
    Vec<String>,
>)
    ensures
        match (out, admitted) {
            (SessionState::Authenticated { scopes, method }, Ok((shape, grant))) => scopes == grant.scopes && method
                == match shape {
                Credential::BearerToken => Some(SessionMethod::Bearer),
                Credential::SessionCookie => Some(SessionMethod::Browser),
                _ => None,
            },
            (SessionState::Unauthenticated, Err(_)) => true,
            _ => false,
        },
{
    match admitted {
        Ok((shape, grant)) => SessionState::Authenticated {
            scopes: grant.scopes,
            method: access::session_method(shape),
        },
        Err(_) => SessionState::Unauthenticated,
    }
}

// ---------------------------------------------------------------------------
// Conversations
// ---------------------------------------------------------------------------

/// Whether a conversation is shown. `held` is asked only of one that was not
/// deleted, and a deleted one is refused as one that never was.
#[derive(Debug, PartialEq, Eq)]
pub enum Shown<T> {
    /// 404, with the reason that there is no such conversation.
    NotFound,
    Snapshot(T),
}

/// Whether a conversation is shown.
pub fn thread_snapshot<T>(deleted: bool, held: Option<T>) -> (out: Shown<T>)
    ensures
        out == match held {
            Some(snapshot) => if deleted {
                Shown::NotFound
            } else {
                Shown::Snapshot(snapshot)
            },
            None => Shown::NotFound,
        },
{
    if deleted {
        return Shown::NotFound;
    }
    match held {
        Some(snapshot) => Shown::Snapshot(snapshot),
        None => Shown::NotFound,
    }
}

// ---------------------------------------------------------------------------
// Files
// ---------------------------------------------------------------------------

/// How long a project's file may be kept by the browser that was given it.
pub const PROJECT_ASSET_CACHING: &'static str = "private, max-age=3600";

/// A browser takes a project's file for what the server says it is.
pub const PROJECT_ASSET_SNIFFING: &'static str = "nosniff";

/// The status that a file is answered with.
pub open spec fn asset_status<T>(served: Option<Option<T>>) -> u16 {
    match served {
        Some(Some(_)) => 200,
        Some(None) => 404,
        None => 500,
    }
}

/// The status that a project's file is answered with: `None` is work that did not
/// come to an end, and every other failure is a file that is not there.
pub fn project_asset<T>(served: &Option<Option<T>>) -> (out: u16)
    ensures
        out == asset_status(*served),
{
    match served {
        Some(Some(_)) => 200,
        Some(None) => 404,
        None => 500,
    }
}

// ---------------------------------------------------------------------------
// Challenges
// ---------------------------------------------------------------------------

/// The token that a challenge is answered with, where the header holds one.
pub open spec fn token_of(authorization: Option<Text>) -> Option<Text> {
    match authorization {
        Some(header) => if header.len() >= 7 && header.take(7) == "Bearer "@ {
            Some(header.skip(7))
        } else {
            None
        },
        None => None,
    }
}

/// The view of a header that may be missing.
pub open spec fn header_view(header: Option<&str>) -> Option<Text> {
    match header {
        Some(header) => Some(header@),
        None => None,
    }
}

/// The token that a challenge is answered with, where the header holds one.
pub fn diagnostic_token(authorization: Option<&str>) -> (out: Option<String>)
    ensures
        text::maybe(out) == token_of(header_view(authorization)),
{
    proof {
        reveal_strlit("Bearer ");
    }
    match authorization {
        Some(header) => text::strip_prefix(header, "Bearer "),
        None => None,
    }
}

/// Whether a request answers a challenge, over this protocol. One that does not is
/// answered 401, and spends nothing.
pub fn consume_diagnostic_challenge(
    challenges: &mut Challenges,
    authorization: Option<&str>,
    expected: DiagnosticChallenge,
) -> (out: bool)
    requires
        old(challenges).open.wf(),
    ensures
        final(challenges).open.wf(),
        out == match token_of(header_view(authorization)) {
            Some(token) => keyed::find(old(challenges).open@, token) == Some(expected),
            None => false,
        },
        out ==> keyed::find(final(challenges).open@, token_of(header_view(authorization))->0) is None,
        forall|other: Text|
            !(out && Some(other) == token_of(header_view(authorization))) ==> #[trigger] keyed::find(
                final(challenges).open@,
                other,
            ) == keyed::find(old(challenges).open@, other),
{
    match diagnostic_token(authorization) {
        Some(token) => {
            let ghost before = challenges.open@;
            let answered = challenges.consume(&token, expected);
            proof {
                keyed::taken_out(before, token@, token@);
            }
            answered
        },
        None => false,
    }
}

// ---------------------------------------------------------------------------
// Calls from an agent's tools
// ---------------------------------------------------------------------------

/// What a call is answered.
#[derive(Debug, Clone, Copy, PartialEq, Eq, Structural)]
pub enum McpAnswer {
    /// 403.
    Forbidden,
    /// 401.
    Unauthorized,
    /// 400.
    BadRequest,
    /// 202: it was told something and asked nothing.
    Accepted,
    /// What the call gives, as JSON.
    Dispatch,
}

/// Whether an origin is this machine's own.
pub open spec fn is_local(origin: Option<UrlParts<Text>>) -> bool {
    match origin {
        Some(url) => match url.host {
            Some(host) => text::ascii_lowered(host) == "localhost"@ || text::is_loopback(host),
            None => false,
        },
        None => false,
    }
}

/// Whether an origin that has been taken apart is this machine's own.
pub fn is_local_origin(origin: &Option<UrlParts<String>>) -> (out: bool)
    ensures
        out == is_local(web::parts_view(*origin)),
{
    match origin {
        Some(url) => match &url.host {
            Some(host) => text::same(&text::to_ascii_lower(host), "localhost") || text::is_loopback_v4(host),
            None => false,
        },
        None => false,
    }
}

/// Whether a page of another machine made the call. A call without an origin was
/// made by no page.
pub fn is_foreign_call(origin: Option<&str>) -> (out: bool)
    ensures
        out == match header_view(origin) {
            Some(origin) => !is_local(web::parsed_url(origin)),
            None => false,
        },
{
    match origin {
        Some(origin) => !is_local_origin(&web::parse_url(origin)),
        None => false,
    }
}

/// What a call is answered. `has_method` and `has_id` are what its body has, or
/// nothing where it is no JSON.
pub open spec fn mcp_answer(
    foreign: bool,
    authorized: bool,
    has_method: Option<bool>,
    has_id: Option<bool>,
) -> McpAnswer {
    if foreign {
        McpAnswer::Forbidden
    } else if !authorized {
        McpAnswer::Unauthorized
    } else {
        match (has_method, has_id) {
            (Some(has_method), Some(has_id)) => if has_method && has_id {
                McpAnswer::Dispatch
            } else {
                McpAnswer::Accepted
            },
            _ => McpAnswer::BadRequest,
        }
    }
}

/// What a call is answered. `authorized` is whether the session takes what the
/// request presents.
pub fn mcp_post(origin: Option<&str>, authorized: bool, body: &[u8]) -> (out: McpAnswer)
    ensures
        out == mcp_answer(
            match header_view(origin) {
                Some(origin) => !is_local(web::parsed_url(origin)),
                None => false,
            },
            authorized,
            web::document_has(body@, "method"@),
            web::document_has(body@, "id"@),
        ),
{
    let foreign: bool = is_foreign_call(origin);
    if foreign || !authorized {
        return mcp_decide(foreign, authorized, None, None);
    }
    mcp_decide(foreign, authorized, web::has_field(body, "method"), web::has_field(body, "id"))
}

/// What a call is answered, from what is known of it.
pub fn mcp_decide(foreign: bool, authorized: bool, has_method: Option<bool>, has_id: Option<bool>) -> (out: McpAnswer)
    ensures
        out == mcp_answer(foreign, authorized, has_method, has_id),
{
    if foreign {
        return McpAnswer::Forbidden;
    }
    if !authorized {
        return McpAnswer::Unauthorized;
    }
    match (has_method, has_id) {
        (Some(has_method), Some(has_id)) => {
            if has_method && has_id {
                McpAnswer::Dispatch
            } else {
                McpAnswer::Accepted
            }
        },
        _ => McpAnswer::BadRequest,
    }
}

/// Nothing is called for a page of another machine, nor for a request that the
/// session does not take, whatever it says.
pub proof fn nothing_is_called_without_authority(
    foreign: bool,
    authorized: bool,
    has_method: Option<bool>,
    has_id: Option<bool>,
)
    ensures
        mcp_answer(foreign, authorized, has_method, has_id) == McpAnswer::Dispatch ==> !foreign && authorized,
        foreign || !authorized ==> mcp_answer(foreign, authorized, has_method, has_id) == mcp_answer(
            foreign,
            authorized,
            None,
            None,
        ),
{
}

} // verus!
