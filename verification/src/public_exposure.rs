//! Operator-owned public endpoint registration and layered verification.

pub mod verification;
pub mod vocabulary;

pub use crate::public_exposure::vocabulary::{
    MutationIntent, MutationState, MutationStep, RefusalReason, TunnelOwnership, UnknownWord,
};
pub use crate::public_exposure::verification::{verify_descriptor, VerificationFailure};
pub use crate::web::IpAddr;

use crate::text;
use crate::web;
use crate::web::UrlParts;
use vstd::prelude::*;

verus! {

// ---------------------------------------------------------------------------
// Refusals
// ---------------------------------------------------------------------------

/// Which half of the refusal contract this is, and therefore its status.
#[derive(Debug, Clone, Copy, PartialEq, Eq, Structural)]
pub enum RefusalKind {
    /// The developer has to do something first.
    Precondition,
    /// cloudflared, its output, or the request itself said no.
    Rejected,
}

/// A refused public-exposure command, in the shape a client can decode.
#[derive(Debug, PartialEq, Eq)]
pub struct Refusal {
    pub kind: RefusalKind,
    pub reason: RefusalReason,
    pub message: String,
    pub completed: Vec<MutationStep>,
    pub remaining: Vec<MutationStep>,
}

impl Refusal {
    /// The developer has to do something first.
    pub fn precondition(reason: RefusalReason, message: &str) -> (out: Self)
        ensures
            out.kind == RefusalKind::Precondition,
            out.reason == reason,
            out.message@ == message@,
            out.completed@.len() == 0 && out.remaining@.len() == 0,
    {
        Self::new(RefusalKind::Precondition, reason, message)
    }

    /// cloudflared, its output, or the request itself said no.
    pub fn rejected(reason: RefusalReason, message: &str) -> (out: Self)
        ensures
            out.kind == RefusalKind::Rejected,
            out.reason == reason,
            out.message@ == message@,
            out.completed@.len() == 0 && out.remaining@.len() == 0,
    {
        Self::new(RefusalKind::Rejected, reason, message)
    }

    fn new(kind: RefusalKind, reason: RefusalReason, message: &str) -> (out: Self)
        ensures
            out.kind == kind,
            out.reason == reason,
            out.message@ == message@,
            out.completed@.len() == 0 && out.remaining@.len() == 0,
    {
        Refusal { kind, reason, message: message.to_owned(), completed: Vec::new(), remaining: Vec::new() }
    }

    /// Attaches the exact work a partial mutation finished and left outstanding.
    pub fn after(self, completed: &[MutationStep], remaining: &[MutationStep]) -> (out: Self)
        ensures
            out.kind == self.kind,
            out.reason == self.reason,
            out.message == self.message,
            out.completed@ == completed@,
            out.remaining@ == remaining@,
    {
        Refusal { completed: copy_steps(completed), remaining: copy_steps(remaining), ..self }
    }

    /// Takes a secret out of the sentence, wherever it came from. A blank secret
    /// takes nothing out.
    pub fn redacting(self, secret: &str) -> (out: Self)
        ensures
            out.kind == self.kind,
            out.reason == self.reason,
            out.completed == self.completed,
            out.remaining == self.remaining,
            out.message@ == redacted(self.message@, secret@),
    {
        if text::trim(secret).as_str().is_empty() {
            return self;
        }
        proof {
            if secret@.len() == 0 {
                assert(text::trimmed_start(secret@) == secret@);
                assert(text::trimmed(secret@).len() == 0);
            }
        }
        let message = text::replace(&self.message, secret, "[REDACTED]");
        Refusal { message, ..self }
    }
}

/// A message with a secret taken out of it.
pub open spec fn redacted(message: Seq<char>, secret: Seq<char>) -> Seq<char> {
    if text::trimmed(secret).len() == 0 {
        message
    } else {
        text::replaced(message, secret, "[REDACTED]"@)
    }
}

/// Redaction keeps exactly what stood between the places of the secret, and what
/// it keeps never holds the secret.
pub proof fn redaction_keeps_only_what_is_not_the_secret(message: Seq<char>, secret: Seq<char>)
    requires
        text::trimmed(secret).len() > 0,
    ensures
        redacted(message, secret) == text::join(text::split(message, secret), "[REDACTED]"@),
        text::join(text::split(message, secret), secret) == message,
        forall|k: int|
            0 <= k < text::split(message, secret).len() ==> !text::occurs(
                #[trigger] text::split(message, secret)[k],
                secret,
            ),
{
    if secret.len() == 0 {
        assert(text::trimmed_start(secret) == secret);
        assert(text::trimmed(secret).len() == 0);
    }
    text::splitting_loses_nothing(message, secret);
}

/// A message that never held the secret is left as it is.
pub proof fn redaction_leaves_other_messages_alone(message: Seq<char>, secret: Seq<char>)
    requires
        !text::occurs(message, secret),
    ensures
        redacted(message, secret) == message,
{
    if text::trimmed(secret).len() > 0 {
        if secret.len() == 0 {
            assert(text::trimmed_start(secret) == secret);
            assert(text::trimmed(secret).len() == 0);
        }
        text::next_place_is_first(message, secret, 0);
        if let Some(i) = text::next_place(message, secret, 0) {
            assert(text::stands_at(message, secret, i));
        }
        assert(text::split(message, secret) =~= seq![message]);
    }
}

fn copy_steps(steps: &[MutationStep]) -> (out: Vec<MutationStep>)
    ensures
        out@ == steps@,
{
    let mut out: Vec<MutationStep> = Vec::new();
    let mut i: usize = 0;
    while i < steps.len()
        invariant
            i <= steps@.len(),
            out@ == steps@.take(i as int),
        decreases steps@.len() - i,
    {
        proof {
            assert(steps@.take(i + 1) =~= steps@.take(i as int).push(steps@[i as int]));
        }
        out.push(steps[i]);
        i += 1;
    }
    proof {
        assert(steps@.take(i as int) =~= steps@);
    }
    out
}

// ---------------------------------------------------------------------------
// Hostnames
// ---------------------------------------------------------------------------

/// The URL a typed hostname is read as: itself where it names a scheme, and with
/// `https` in front where it does not.
pub open spec fn hostname_url(input: Seq<char>) -> Seq<char> {
    let candidate = text::trimmed(input);
    if text::occurs(candidate, "://"@) {
        candidate
    } else {
        "https://"@ + candidate
    }
}

/// Whether a URL is nothing but `https` and a host.
pub open spec fn is_bare_https_host(url: UrlParts<Seq<char>>) -> bool {
    &&& url.scheme == "https"@
    &&& url.host is Some
    &&& url.port is None
    &&& url.username.len() == 0
    &&& url.password is None
    &&& url.path == "/"@
    &&& url.query is None
    &&& url.fragment is None
}

/// Whether a host is an address and no name: an IPv4 address in dotted decimal, or
/// an IPv6 address, which a URL has in brackets.
pub open spec fn is_address(host: Seq<char>) -> bool {
    text::is_dotted(host) || "["@.is_prefix_of(host)
}

/// What registering a URL means: the origin it is normalised to, or why not.
pub open spec fn origin_of(url: Option<UrlParts<Seq<char>>>) -> Result<Seq<char>, Seq<char>> {
    match url {
        None => Err("Enter a valid HTTPS hostname."@),
        Some(url) => if !is_bare_https_host(url) {
            Err("Enter a hostname only; HTTPS and the default port are required."@)
        } else {
            let host = text::without_trailing(url.host->0, '.');
            if text::ascii_lowered(host) == "localhost"@ || is_address(host) {
                Err("A public DNS hostname is required."@)
            } else {
                Ok("https://"@ + text::ascii_lowered(host))
            }
        },
    }
}

/// The view of a text or of the sentence that refuses it.
pub open spec fn outcome_view(outcome: Result<String, &'static str>) -> Result<Seq<char>, Seq<char>> {
    match outcome {
        Ok(text) => Ok(text@),
        Err(why) => Err(why@),
    }
}

/// The `https` origin of a hostname as it was typed, or why it cannot be
/// registered. Registered again, an origin stays what it is, unless its host is
/// none that reads back as itself.
pub fn normalize_hostname(input: &str) -> (out: Result<String, &'static str>)
    ensures
        outcome_view(out) == origin_of(web::parsed_url(hostname_url(input@))),
        out matches Ok(origin) ==> is_registered(origin@) && web::is_plain_host(origin@.skip(8)),
        out matches Ok(origin) ==> web::is_settled_host(origin@.skip(8)) ==> origin_of(
            web::parsed_url(hostname_url(origin@)),
        ) == Ok::<Seq<char>, Seq<char>>(origin@),
{
    let candidate = text::trim(input);
    let url = if text::contains(&candidate, "://") {
        web::parse_url(&candidate)
    } else {
        web::parse_url(&text::glue("https://", &candidate))
    };
    proof {
        let parts = web::parts_view(url);
        if origin_of(parts) is Ok {
            a_registered_origin_is_a_lowered_name(parts);
            a_plain_host_stays_plain(parts->0.host->0);
            a_settled_origin_registers_as_itself(parts->0.host->0, origin_of(parts)->Ok_0);
        }
    }
    normalize_url(url)
}

/// The `https` origin of a URL that has been taken apart, or why it cannot be
/// registered.
pub fn normalize_url(url: Option<UrlParts<String>>) -> (out: Result<String, &'static str>)
    ensures
        outcome_view(out) == origin_of(web::parts_view(url)),
{
    let url = match url {
        Some(url) => url,
        None => {
            return Err("Enter a valid HTTPS hostname.");
        },
    };
    match &url.host {
        Some(host) => {
            if !text::same(&url.scheme, "https") || url.port.is_some() || !url.username.as_str().is_empty()
                || url.password.is_some() || !text::same(&url.path, "/") || url.query.is_some()
                || url.fragment.is_some() {
                return Err("Enter a hostname only; HTTPS and the default port are required.");
            }
            let host = text::trim_trailing(host, '.');
            let lowered = text::to_ascii_lower(&host);
            if text::same(&lowered, "localhost") || text::is_ipv4(&host) || text::starts_with(&host, "[") {
                return Err("A public DNS hostname is required.");
            }
            Ok(text::glue("https://", &lowered))
        },
        None => Err("Enter a hostname only; HTTPS and the default port are required."),
    }
}

/// What a registered origin is: `https://` and a host in lower case that does not
/// end with a dot and is neither the local host nor an address.
pub open spec fn is_registered(origin: Seq<char>) -> bool {
    let host = origin.skip(8);
    &&& origin == "https://"@ + host
    &&& host == text::ascii_lowered(host)
    &&& host != "localhost"@
    &&& !is_address(host)
    &&& host.len() > 0 ==> host.last() != '.'
}

/// A registered origin is `https://` and a host in lower case that does not end
/// with a dot and is neither the local host nor an address.
pub proof fn a_registered_origin_is_a_lowered_name(url: Option<UrlParts<Seq<char>>>)
    requires
        origin_of(url) is Ok,
    ensures
        is_registered(origin_of(url)->Ok_0),
{
    reveal_strlit("https://");
    reveal_strlit("[");
    let given = text::without_trailing(url->0.host->0, '.');
    let host = text::ascii_lowered(given);
    assert(("https://"@ + host).skip(8) =~= host);
    assert(text::ascii_lowered(host) =~= host);
    no_trailing_dot(url->0.host->0);
    if text::is_dotted(host) {
        text::only_digits_are_dotted(host);
        assert forall|i: int| 0 <= i < given.len() implies given[i] == host[i] by {
            assert(host[i] == text::ascii_lower(given[i]));
        }
        assert(given =~= host);
    }
    if "["@.is_prefix_of(host) {
        assert(host[0] == "["@[0]);
        assert(host[0] == text::ascii_lower(given[0]));
        assert("["@.is_prefix_of(given)) by {
            assert("["@ =~= given.subrange(0, 1));
        }
    }
}

/// A registered origin registers as itself, wherever it is read as a URL of
/// nothing but `https` and its own host.
pub proof fn a_registered_origin_registers_as_itself(origin: Seq<char>)
    requires
        is_registered(origin),
        web::is_plain_host(origin.skip(8)),
        web::parsed_url(origin) is Some,
        is_bare_https_host(web::parsed_url(origin)->0),
        web::parsed_url(origin)->0.host == Some(origin.skip(8)),
    ensures
        origin_of(web::parsed_url(hostname_url(origin))) == Ok::<Seq<char>, Seq<char>>(origin),
{
    reveal_strlit("https://");
    reveal_strlit("://");
    let host = origin.skip(8);
    assert(origin[0] == 'h');
    assert(text::trimmed_start(origin) == origin);
    assert(!text::is_space(origin.last())) by {
        if host.len() > 0 {
            assert(origin.last() == host[host.len() - 1]);
        } else {
            assert(origin.last() == "https://"@[7]);
        }
    }
    assert(text::trimmed(origin) == origin);
    assert(text::stands_at(origin, "://"@, 5)) by {
        assert(origin.subrange(5, 8) =~= "://"@);
    }
    assert(hostname_url(origin) == origin);
    assert(text::without_trailing(host, '.') == host);
}

/// The origin of a host in lower case is what it is registered as again, where the
/// host reads back as itself.
proof fn a_settled_origin_registers_as_itself(host: Seq<char>, origin: Seq<char>)
    requires
        text::ascii_lowered(host) == host,
        origin == "https://"@ + text::ascii_lowered(text::without_trailing(host, '.')),
        is_registered(origin),
        web::is_plain_host(origin.skip(8)),
        ({
            let name = text::without_trailing(host, '.');
            web::is_settled_host(name) ==> web::parsed_url("https://"@ + name) == Some(web::https_host(name))
        }),
    ensures
        web::is_settled_host(origin.skip(8)) ==> origin_of(web::parsed_url(hostname_url(origin))) == Ok::<
            Seq<char>,
            Seq<char>,
        >(origin),
{
    reveal_strlit("https://");
    reveal_strlit("");
    let name = text::without_trailing(host, '.');
    a_beginning_is_left(host);
    assert forall|i: int| 0 <= i < name.len() implies text::ascii_lower(#[trigger] name[i]) == name[i] by {
        assert(text::ascii_lowered(host)[i] == host[i]);
    }
    assert(text::ascii_lowered(name) =~= name);
    assert(origin.skip(8) =~= name);
    if web::is_settled_host(name) {
        a_registered_origin_registers_as_itself(origin);
    }
}

/// What is left of a plain host is plain, in lower case too.
proof fn a_plain_host_stays_plain(host: Seq<char>)
    requires
        web::is_plain_host(host),
    ensures
        web::is_plain_host(("https://"@ + text::ascii_lowered(text::without_trailing(host, '.'))).skip(8)),
{
    reveal_strlit("https://");
    let left = text::without_trailing(host, '.');
    a_beginning_is_left(host);
    let lowered = text::ascii_lowered(left);
    assert(("https://"@ + lowered).skip(8) =~= lowered);
    assert forall|i: int| 0 <= i < lowered.len() implies 0x20 < (#[trigger] lowered[i]) as u32 && (lowered[i] as u32)
        < 0x7f && lowered[i] != '/' && lowered[i] != '?' && lowered[i] != '#' && lowered[i] != '@' by {
        assert(left[i] == host[i]);
        assert(lowered[i] == text::ascii_lower(host[i]));
    }
}

proof fn a_beginning_is_left(s: Seq<char>)
    ensures
        text::without_trailing(s, '.').is_prefix_of(s),
    decreases s.len(),
{
    if s.len() > 0 && s.last() == '.' {
        a_beginning_is_left(s.drop_last());
    }
}

proof fn no_trailing_dot(s: Seq<char>)
    ensures
        text::without_trailing(s, '.').len() > 0 ==> text::without_trailing(s, '.').last() != '.',
    decreases s.len(),
{
    if s.len() > 0 && s.last() == '.' {
        no_trailing_dot(s.drop_last());
    }
}

// ---------------------------------------------------------------------------
// Addresses
// ---------------------------------------------------------------------------

/// An IPv4 address that no public endpoint may resolve to.
pub open spec fn reserved_v4(ip: Seq<u8>) -> bool {
    // This network, and addresses that are not specified.
    ||| ip[0] == 0
    // Private use.
    ||| ip[0] == 10
    ||| (ip[0] == 172 && 16 <= ip[1] <= 31)
    ||| (ip[0] == 192 && ip[1] == 168)
    // Loopback and link-local.
    ||| ip[0] == 127
    ||| (ip[0] == 169 && ip[1] == 254)
    // Shared address space.
    ||| (ip[0] == 100 && 64 <= ip[1] <= 127)
    // Protocol assignments, documentation and benchmarking.
    ||| (ip[0] == 192 && ip[1] == 0)
    ||| (ip[0] == 198 && ip[1] == 51 && ip[2] == 100)
    ||| (ip[0] == 203 && ip[1] == 0 && ip[2] == 113)
    ||| (ip[0] == 198 && (ip[1] == 18 || ip[1] == 19))
    // Multicast, reserved and broadcast.
    ||| ip[0] >= 224
}

/// An IPv6 address that no public endpoint may resolve to.
pub open spec fn reserved_v6(ip: Seq<u16>) -> bool {
    // Not specified, and loopback.
    ||| (forall|i: int| 0 <= i < 7 ==> #[trigger] ip[i] == 0) && (ip[7] == 0 || ip[7] == 1)
    // Unique local, link-local and multicast.
    ||| 0xfc00 <= ip[0] <= 0xfdff
    ||| 0xfe80 <= ip[0] <= 0xfebf
    ||| ip[0] >= 0xff00
    // Documentation.
    ||| (ip[0] == 0x2001 && ip[1] == 0x0db8)
    // Translation of IPv4, globally and locally.
    ||| (ip[0] == 0x0064 && ip[1] == 0xff9b && ip[2] == 0 && ip[3] == 0 && ip[4] == 0 && ip[5] == 0)
    ||| (ip[0] == 0x0064 && ip[1] == 0xff9b && ip[2] == 1)
    // A reserved IPv4 address, mapped.
    ||| is_mapped(ip) && reserved_v4(mapped_octets(ip))
}

/// Whether an IPv6 address stands for an IPv4 one.
pub open spec fn is_mapped(ip: Seq<u16>) -> bool {
    ip[0] == 0 && ip[1] == 0 && ip[2] == 0 && ip[3] == 0 && ip[4] == 0 && ip[5] == 0xffff
}

/// The IPv4 address an IPv6 one stands for.
pub open spec fn mapped_octets(ip: Seq<u16>) -> Seq<u8> {
    seq![(ip[6] / 256) as u8, (ip[6] % 256) as u8, (ip[7] / 256) as u8, (ip[7] % 256) as u8]
}

/// Whether an address is one a public endpoint may resolve to.
pub open spec fn is_public(address: IpAddr) -> bool {
    match address {
        IpAddr::V4(ip) => !reserved_v4(ip@),
        IpAddr::V6(ip) => !reserved_v6(ip@),
    }
}

fn is_reserved_v4(ip: [u8; 4]) -> (out: bool)
    ensures
        out == reserved_v4(ip@),
{
    ip[0] == 0 || ip[0] == 10 || (ip[0] == 172 && 16 <= ip[1] && ip[1] <= 31) || (ip[0] == 192 && ip[1] == 168)
        || ip[0] == 127 || (ip[0] == 169 && ip[1] == 254) || (ip[0] == 100 && 64 <= ip[1] && ip[1] <= 127)
        || (ip[0] == 192 && ip[1] == 0) || (ip[0] == 198 && ip[1] == 51 && ip[2] == 100)
        || (ip[0] == 203 && ip[1] == 0 && ip[2] == 113) || (ip[0] == 198 && (ip[1] == 18 || ip[1] == 19))
        || ip[0] >= 224
}

/// Whether an address is one a public endpoint may resolve to.
pub fn public_address(address: IpAddr) -> (out: bool)
    ensures
        out == is_public(address),
{
    match address {
        IpAddr::V4(ip) => !is_reserved_v4(ip),
        IpAddr::V6(ip) => {
            let leading: bool = ip[0] == 0 && ip[1] == 0 && ip[2] == 0 && ip[3] == 0 && ip[4] == 0;
            let local: bool = leading && ip[5] == 0 && ip[6] == 0 && (ip[7] == 0 || ip[7] == 1);
            proof {
                assert(local == ((forall|i: int| 0 <= i < 7 ==> #[trigger] ip@[i] == 0) && (ip@[7] == 0 || ip@[7]
                    == 1)));
            }
            if local || (0xfc00 <= ip[0] && ip[0] <= 0xfdff) || (0xfe80 <= ip[0] && ip[0] <= 0xfebf)
                || ip[0] >= 0xff00 || (ip[0] == 0x2001 && ip[1] == 0x0db8) || (ip[0] == 0x0064 && ip[1] == 0xff9b
                && ip[2] == 0 && ip[3] == 0 && ip[4] == 0 && ip[5] == 0) || (ip[0] == 0x0064 && ip[1] == 0xff9b
                && ip[2] == 1) {
                return false;
            }
            if leading && ip[5] == 0xffff {
                let octets: [u8; 4] = [
                    (ip[6] / 256) as u8,
                    (ip[6] % 256) as u8,
                    (ip[7] / 256) as u8,
                    (ip[7] % 256) as u8,
                ];
                proof {
                    assert(octets@ =~= mapped_octets(ip@));
                }
                return !is_reserved_v4(octets);
            }
            true
        },
    }
}

/// An IPv4 address is public exactly when the IPv6 address that stands for it is.
pub proof fn a_mapped_address_is_as_public_as_its_own(v4: [u8; 4], v6: [u16; 8])
    requires
        is_mapped(v6@),
        v6@[6] == v4@[0] * 256 + v4@[1],
        v6@[7] == v4@[2] * 256 + v4@[3],
    ensures
        is_public(IpAddr::V6(v6)) == is_public(IpAddr::V4(v4)),
{
    assert(mapped_octets(v6@) =~= v4@);
}

// ---------------------------------------------------------------------------
// Background verification
// ---------------------------------------------------------------------------

/// How long, in nanoseconds, a verified endpoint waits for its next check.
pub const VERIFIED_DELAY: u128 = 300_000_000_000;

/// How long, in nanoseconds, a failing endpoint waits at most.
pub const LONGEST_DELAY: u128 = 1_800_000_000_000;

/// How long to wait, in nanoseconds, before the next background check: five
/// minutes behind one that succeeded, and twice as long as before, up to half an
/// hour, behind one that failed.
pub fn next_background_delay(current: u128, succeeded: bool) -> (out: u128)
    ensures
        succeeded ==> out == VERIFIED_DELAY,
        !succeeded ==> out == if 2 * current <= LONGEST_DELAY { 2 * current } else { LONGEST_DELAY as int },
{
    if succeeded {
        VERIFIED_DELAY
    } else if current > LONGEST_DELAY / 2 {
        LONGEST_DELAY
    } else {
        2 * current
    }
}

// ---------------------------------------------------------------------------
// What is public
// ---------------------------------------------------------------------------

/// A hostname is registered as the secure origin of its lowered name, where the URL
/// names nothing but a host; a URL that names more, one that names this machine or an
/// address, and one that cannot be read are each refused in their own words.
pub proof fn a_hostname_is_taken_for_its_name_alone(url: UrlParts<Seq<char>>)
    ensures
        origin_of(None) == Err::<Seq<char>, Seq<char>>("Enter a valid HTTPS hostname."@),
        ({
            let bare = url.scheme == "https"@ && url.host is Some && url.port is None && url.username.len() == 0
                && url.password is None && url.path == "/"@ && url.query is None && url.fragment is None;
            let name = text::without_trailing(url.host->0, '.');
            let local = text::ascii_lowered(name) == "localhost"@ || text::is_dotted(name) || "["@.is_prefix_of(name);
            &&& !bare ==> origin_of(Some(url)) == Err::<Seq<char>, Seq<char>>(
                "Enter a hostname only; HTTPS and the default port are required."@,
            )
            &&& bare && local ==> origin_of(Some(url)) == Err::<Seq<char>, Seq<char>>(
                "A public DNS hostname is required."@,
            )
            &&& bare && !local ==> origin_of(Some(url)) == Ok::<Seq<char>, Seq<char>>(
                "https://"@ + text::ascii_lowered(name),
            )
        }),
{
}

/// What was typed is read as a secure URL where it names no scheme, and as it stands
/// where it does.
pub proof fn a_hostname_is_read_as_a_secure_url(input: Seq<char>)
    ensures
        text::occurs(text::trimmed(input), "://"@) ==> hostname_url(input) == text::trimmed(input),
        !text::occurs(text::trimmed(input), "://"@) ==> hostname_url(input) == "https://"@ + text::trimmed(input),
{
}

/// The number that four octets write.
pub open spec fn number_of(ip: Seq<u8>) -> int {
    ((ip[0] * 256 + ip[1]) * 256 + ip[2]) * 256 + ip[3]
}

/// Whether an address lies in the block that begins at these octets and holds this
/// many addresses.
pub open spec fn in_block(ip: Seq<u8>, first: Seq<u8>, size: int) -> bool {
    number_of(first) <= number_of(ip) < number_of(first) + size
}

/// An address of the fourth version is public unless it lies in a block that is
/// reserved.
pub proof fn an_address_is_public_outside_the_reserved_blocks(ip: [u8; 4])
    ensures
        is_public(IpAddr::V4(ip)) <==> !(in_block(ip@, seq![0u8, 0u8, 0u8, 0u8], 0x100_0000) || in_block(
            ip@,
            seq![10u8, 0u8, 0u8, 0u8],
            0x100_0000,
        ) || in_block(ip@, seq![100u8, 64u8, 0u8, 0u8], 0x40_0000) || in_block(
            ip@,
            seq![127u8, 0u8, 0u8, 0u8],
            0x100_0000,
        ) || in_block(ip@, seq![169u8, 254u8, 0u8, 0u8], 0x1_0000) || in_block(
            ip@,
            seq![172u8, 16u8, 0u8, 0u8],
            0x10_0000,
        ) || in_block(ip@, seq![192u8, 0u8, 0u8, 0u8], 0x1_0000) || in_block(
            ip@,
            seq![192u8, 168u8, 0u8, 0u8],
            0x1_0000,
        ) || in_block(ip@, seq![198u8, 18u8, 0u8, 0u8], 0x2_0000) || in_block(
            ip@,
            seq![198u8, 51u8, 100u8, 0u8],
            0x100,
        ) || in_block(ip@, seq![203u8, 0u8, 113u8, 0u8], 0x100) || in_block(
            ip@,
            seq![224u8, 0u8, 0u8, 0u8],
            0x2000_0000,
        )),
{
    let a = ip@;
    assert(a.len() == 4);
    assert(0 <= a[0] <= 255 && 0 <= a[1] <= 255 && 0 <= a[2] <= 255 && 0 <= a[3] <= 255);
}

/// An address of the sixth version is public unless it is unspecified, this machine's,
/// of a local, a multicast, a documentation or a translation prefix, or stands for an
/// address of the fourth version that is not.
pub proof fn a_long_address_is_public_outside_the_reserved_prefixes(ip: [u16; 8], v4: [u8; 4])
    requires
        v4@[0] == ip@[6] / 256 && v4@[1] == ip@[6] % 256,
        v4@[2] == ip@[7] / 256 && v4@[3] == ip@[7] % 256,
    ensures
        ({
            let s = ip@;
            let low = s[0] == 0 && s[1] == 0 && s[2] == 0 && s[3] == 0 && s[4] == 0;
            is_public(IpAddr::V6(ip)) <==> !(low && s[5] == 0 && s[6] == 0 && s[7] <= 1 || s[0] / 0x200 == 0x7e || s[0]
                / 0x40 == 0x3fa || s[0] / 0x100 == 0xff || s[0] == 0x2001 && s[1] == 0xdb8 || s[0] == 0x64 && s[1]
                == 0xff9b && s[2] == 0 && s[3] == 0 && s[4] == 0 && s[5] == 0 || s[0] == 0x64 && s[1] == 0xff9b && s[2] == 1
                || low && s[5] == 0xffff && !is_public(IpAddr::V4(v4)))
        }),
{
    let s = ip@;
    assert(s.len() == 8);
    let zeros = forall|i: int| 0 <= i < 7 ==> #[trigger] s[i] == 0;
    if s[0] == 0 && s[1] == 0 && s[2] == 0 && s[3] == 0 && s[4] == 0 && s[5] == 0 && s[6] == 0 {
        assert forall|i: int| 0 <= i < 7 implies #[trigger] s[i] == 0 by {
            assert(i == 0 || i == 1 || i == 2 || i == 3 || i == 4 || i == 5 || i == 6);
        }
    }
    assert(zeros ==> s[0] == 0 && s[1] == 0 && s[2] == 0 && s[3] == 0 && s[4] == 0 && s[5] == 0 && s[6] == 0);
    assert(s[0] / 0x200 == 0x7e <==> 0xfc00 <= s[0] <= 0xfdff);
    assert(s[0] / 0x40 == 0x3fa <==> 0xfe80 <= s[0] <= 0xfebf);
    assert(s[0] / 0x100 == 0xff <==> s[0] >= 0xff00);
    if is_mapped(s) {
        a_mapped_address_is_as_public_as_its_own(v4, ip);
        assert(mapped_octets(s) =~= v4@);
    }
}

/// An endpoint that passed is looked at again after five minutes, and one that keeps
/// failing after twice as long as the last time, up to half an hour.
pub proof fn a_failing_endpoint_waits_longer(current: u128, succeeded: bool, out: u128)
    requires
        call_ensures(next_background_delay, (current, succeeded), out),
    ensures
        succeeded ==> out == 300_000_000_000,
        !succeeded && current <= 900_000_000_000 ==> out == 2 * current,
        !succeeded && current > 900_000_000_000 ==> out == 1_800_000_000_000,
{
}

/// A message is shown without the secret, and without change where there is none.
pub proof fn a_secret_is_not_shown(message: Seq<char>, secret: Seq<char>)
    ensures
        text::trimmed(secret).len() == 0 ==> redacted(message, secret) == message,
        text::trimmed(secret).len() > 0 ==> redacted(message, secret) == text::join(
            text::split(message, secret),
            "[REDACTED]"@,
        ),
{
    if text::trimmed(secret).len() > 0 {
        redaction_keeps_only_what_is_not_the_secret(message, secret);
    }
}

/// A refusal is of its kind, for its reason and in its words, with nothing done and
/// nothing left until that is said of it.
pub proof fn a_refusal_is_what_it_was_made_as(
    reason: RefusalReason,
    message: &str,
    unmet: Refusal,
    rejected: Refusal,
    completed: &[MutationStep],
    remaining: &[MutationStep],
    told: Refusal,
)
    requires
        call_ensures(Refusal::precondition, (reason, message), unmet),
        call_ensures(Refusal::rejected, (reason, message), rejected),
        call_ensures(Refusal::after, (unmet, completed, remaining), told),
    ensures
        unmet.kind is Precondition && rejected.kind is Rejected,
        unmet.reason == reason && rejected.reason == reason,
        unmet.message@ == message@ && rejected.message@ == message@,
        unmet.completed@.len() == 0 && unmet.remaining@.len() == 0,
        rejected.completed@.len() == 0 && rejected.remaining@.len() == 0,
        told.kind is Precondition && told.reason == reason && told.message@ == message@,
        told.completed@ == completed@ && told.remaining@ == remaining@,
{
}

} // verus!
