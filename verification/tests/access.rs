//! Who may do what: credentials, scopes and the exchange of a pairing code.

use laplus::access::authorized;
use laplus::access::check;
use laplus::access::covers;
use laplus::access::has_word;
use laplus::access::pairing_credential;
use laplus::access::require_scope;
use laplus::access::revoke_pairing_link;
use laplus::access::session_method;
use laplus::access::websocket_ticket;
use laplus::access::Check;
use laplus::access::Credential;
use laplus::access::Denial;
use laplus::access::Exchange;
use laplus::access::ExchangeAction;
use laplus::access::ExchangeFields;
use laplus::access::ExchangeTerms;
use laplus::access::Grant;
use laplus::access::HttpRefusal;
use laplus::access::Lookup;
use laplus::access::Payload;
use laplus::access::ScopeRequest;
use laplus::access::SessionMethod;
use laplus::access::Spending;

fn words(list: &[&str]) -> Vec<String> {
    list.iter().map(|word| word.to_string()).collect()
}

fn grant(scopes: &[&str]) -> Grant<String, Vec<String>> {
    Grant { subject: "phone".to_owned(), scopes: words(scopes), label: None }
}

#[test]
fn a_scope_is_granted_or_named() {
    assert!(has_word(&words(&["a", "b"]), "b"));
    assert!(!has_word(&words(&["a", "b"]), "c"));
    assert!(covers(&words(&["a", "b"]), &words(&["b"])));
    assert!(!covers(&words(&["a"]), &words(&["a", "b"])));
    assert_eq!(require_scope(&words(&["access:read"]), "access:read"), Ok(()));
    assert_eq!(
        require_scope(&words(&["access:read"]), "access:write").unwrap_err().required_scope,
        "access:write"
    );
}

#[test]
fn a_credential_is_checked_by_what_it_is() {
    assert_eq!(check(Credential::WebSocketTicket), Ok(Check::ConsumeTicket));
    assert_eq!(check(Credential::BearerToken), Ok(Check::VerifySession));
    assert_eq!(check(Credential::SessionCookie), Ok(Check::VerifySession));
    assert!(matches!(check(Credential::Absent), Err(Denial::MissingCredential { .. })));
    assert!(matches!(check(Credential::DpopToken), Err(Denial::InvalidCredential { .. })));
    assert_eq!(authorized(Credential::BearerToken, Lookup::Found(7)), Ok(7));
    assert_eq!(
        authorized::<u8>(Credential::BearerToken, Lookup::Nothing),
        Err(Denial::InvalidCredential {
            detail: "refusing a BearerToken that names no live session".to_owned()
        })
    );
    assert_eq!(
        authorized::<u8>(Credential::SessionCookie, Lookup::Unavailable),
        Err(Denial::Refused(HttpRefusal::CredentialVerificationFailed))
    );
    assert_eq!(session_method(Credential::BearerToken), Some(SessionMethod::Bearer));
    assert_eq!(session_method(Credential::WebSocketTicket), None);
}

fn terms() -> ExchangeTerms<String> {
    ExchangeTerms {
        grant_type: "exchange".to_owned(),
        subject_token_type: "code".to_owned(),
        requested_token_type: "session".to_owned(),
    }
}

fn fields(token: &str) -> ExchangeFields<String> {
    ExchangeFields {
        grant_type: Some("exchange".to_owned()),
        subject_token_type: Some("code".to_owned()),
        requested_token_type: Some("session".to_owned()),
        subject_token: Some(token.to_owned()),
    }
}

#[test]
fn a_code_is_exchanged_for_no_more_than_it_grants() {
    let asked = ScopeRequest::Asked(words(&["a"]));
    let (mut exchange, first) = Exchange::token_exchange(&terms(), &fields(" code-1 "), asked);
    assert_eq!(first, ExchangeAction::Spend { credential: "code-1".to_owned() });
    assert_eq!(exchange.spent(Spending::Granted(grant(&["a", "b"]))), ExchangeAction::Mint);
    let (method, issue) = exchange.minted(true);
    assert_eq!(
        issue,
        ExchangeAction::Issue {
            subject: "phone".to_owned(),
            scopes: words(&["a"]),
            label: None,
            method: SessionMethod::Bearer
        }
    );
    assert_eq!(Exchange::issued(method, true), ExchangeAction::Done);
    assert_eq!(
        Exchange::issued(method, false),
        ExchangeAction::Deny(Denial::Refused(HttpRefusal::AccessTokenUnavailable))
    );

    let (mut greedy, _) =
        Exchange::token_exchange(&terms(), &fields("code-1"), ScopeRequest::Asked(words(&["c"])));
    assert_eq!(
        greedy.spent(Spending::Granted(grant(&["a"]))),
        ExchangeAction::Deny(Denial::Refused(HttpRefusal::ScopeNotGranted))
    );
    assert!(greedy.grant.is_none(), "a refused exchange kept what the code granted");
}

#[test]
fn a_code_is_not_spent_on_a_request_that_cannot_succeed() {
    let deny = |fields: &ExchangeFields<String>, scope| Exchange::token_exchange(&terms(), fields, scope).1;
    assert_eq!(
        deny(&ExchangeFields { grant_type: None, ..fields("c") }, ScopeRequest::Unasked),
        ExchangeAction::Deny(Denial::Refused(HttpRefusal::UnsupportedRequest))
    );
    assert!(matches!(
        deny(&fields("   "), ScopeRequest::Unasked),
        ExchangeAction::Deny(Denial::MissingCredential { .. })
    ));
    assert_eq!(
        deny(&fields("c"), ScopeRequest::Unreadable),
        ExchangeAction::Deny(Denial::Refused(HttpRefusal::InvalidScope))
    );
}

#[test]
fn a_browser_session_has_everything_its_code_grants() {
    let (mut exchange, first) = Exchange::browser_session(Some("code-1".to_owned()));
    assert_eq!(first, ExchangeAction::Spend { credential: "code-1".to_owned() });
    assert_eq!(
        exchange.spent(Spending::Rejected { detail: "it expired".to_owned() }),
        ExchangeAction::Deny(Denial::InvalidCredential {
            detail: "refusing to open a browser session: it expired".to_owned()
        })
    );
    let (mut exchange, _) = Exchange::browser_session(Some("code-1".to_owned()));
    assert_eq!(
        exchange.spent(Spending::Unavailable),
        ExchangeAction::Deny(Denial::Refused(HttpRefusal::BrowserSessionUnavailable))
    );
    assert_eq!(
        Exchange::browser_session(None).1,
        ExchangeAction::Deny(Denial::Refused(HttpRefusal::UnsupportedRequest))
    );
}

#[test]
fn tickets_and_links_fail_as_themselves() {
    assert_eq!(websocket_ticket(true, Lookup::Found(())), Ok(()));
    assert!(matches!(websocket_ticket(true, Lookup::Nothing), Err(Denial::InvalidCredential { .. })));
    assert_eq!(
        websocket_ticket(false, Lookup::Found(())),
        Err(Denial::Refused(HttpRefusal::WebsocketTicketUnavailable))
    );
    assert_eq!(pairing_credential(Payload::Readable, true, true), Ok(()));
    assert_eq!(pairing_credential(Payload::InvalidScope, true, true), Err(HttpRefusal::InvalidScope));
    assert_eq!(pairing_credential(Payload::Malformed, true, true), Err(HttpRefusal::UnsupportedRequest));
    assert_eq!(
        pairing_credential(Payload::Readable, true, false),
        Err(HttpRefusal::PairingCredentialUnavailable)
    );
    assert_eq!(revoke_pairing_link(true, Lookup::Found(())), Ok(true));
    assert_eq!(revoke_pairing_link(true, Lookup::Nothing), Ok(false));
    assert_eq!(revoke_pairing_link(false, Lookup::Nothing), Err(HttpRefusal::PairingLinkRevokeFailed));
}
