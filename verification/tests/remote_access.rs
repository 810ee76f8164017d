//! Who may reach the server, and the file that says so.

use laplus::remote_access::is_remote_reachable_host;
use laplus::remote_access::mode_of;
use laplus::remote_access::Exposure;
use laplus::remote_access::FileRead;
use laplus::remote_access::RemoteAccess;

const LOCALHOST: [u8; 4] = [127, 0, 0, 1];
const UNSPECIFIED: [u8; 4] = [0, 0, 0, 0];

fn loaded(contents: &str) -> RemoteAccess {
    RemoteAccess::load(&FileRead::Text(contents.to_owned())).0
}

#[test]
fn a_machine_with_no_file_stays_on_this_machine() {
    let (access, wrong) = RemoteAccess::load(&FileRead::Missing);
    assert_eq!(access.exposure(), Exposure::LocalOnly);
    assert_eq!(access.bind_address(), LOCALHOST);
    assert_eq!(wrong, None);
}

#[test]
fn a_file_from_before_the_switch_stays_on_this_machine() {
    let (access, wrong) = RemoteAccess::load(&FileRead::Text(r#"{ "allowedOrigins": ["phone.example"] }"#.to_owned()));
    assert_eq!(access.exposure(), Exposure::LocalOnly);
    assert_eq!(wrong, None, "nobody wrote that file by hand");
}

#[test]
fn a_leftover_host_list_no_longer_decides_anything() {
    let access = loaded(r#"{ "mode": "network-accessible", "allowedOrigins": "not-an-array" }"#);
    assert_eq!(access.exposure(), Exposure::NetworkAccessible);
}

#[test]
fn turning_the_switch_on_binds_every_interface() {
    let access = loaded(r#"{ "mode": "network-accessible" }"#);
    assert_eq!(access.exposure(), Exposure::NetworkAccessible);
    assert_eq!(access.bind_address(), UNSPECIFIED);
}

#[test]
fn a_mode_this_server_does_not_know_stays_on_this_machine() {
    let (access, wrong) = RemoteAccess::load(&FileRead::Text(r#"{ "mode": "everyone-welcome" }"#.to_owned()));
    assert_eq!(access.exposure(), Exposure::LocalOnly);
    assert_eq!(
        wrong.as_deref(),
        Some(
            "`mode` is \"everyone-welcome\", which is neither `local-only` nor `network-accessible`; \
             staying on this machine."
        )
    );
}

#[test]
fn a_file_that_will_not_parse_stays_on_this_machine() {
    let (access, wrong) = RemoteAccess::load(&FileRead::Text("{ not json".to_owned()));
    assert_eq!(access.exposure(), Exposure::LocalOnly);
    assert!(wrong.expect("a complaint").starts_with("it is not valid JSON: "));
}

#[test]
fn a_file_that_cannot_be_read_stays_on_this_machine() {
    let (access, wrong) = RemoteAccess::load(&FileRead::Failed("permission denied".to_owned()));
    assert_eq!(access.exposure(), Exposure::LocalOnly);
    assert_eq!(wrong.as_deref(), Some("it could not be read: permission denied."));
}

#[test]
fn what_settings_writes_is_what_the_next_start_reads() {
    let written = RemoteAccess::none().with_exposure(Exposure::NetworkAccessible).save();
    let reloaded = loaded(&written);
    assert_eq!(reloaded.exposure(), Exposure::NetworkAccessible);
    assert_eq!(written, "{\n  \"mode\": \"network-accessible\"\n}");

    let written = reloaded.with_exposure(Exposure::LocalOnly).save();
    assert_eq!(loaded(&written).exposure(), Exposure::LocalOnly);
}

#[test]
fn only_the_unspecified_address_is_reachable_from_elsewhere() {
    assert!(is_remote_reachable_host(UNSPECIFIED));
    assert!(!is_remote_reachable_host(LOCALHOST));
    assert!(!is_remote_reachable_host([127, 0, 0, 2]));
    assert!(is_remote_reachable_host([192, 168, 1, 4]));
}

#[test]
fn the_switch_decides_what_the_policy_reports() {
    let local = RemoteAccess::none();
    assert!(!is_remote_reachable_host(local.bind_address()));

    let networked = local.with_exposure(Exposure::NetworkAccessible);
    assert!(is_remote_reachable_host(networked.bind_address()));
}

#[test]
fn a_mode_is_what_the_field_says() {
    let found = |mode: Option<&str>, shown: &str| Ok(Some((mode.map(str::to_owned), shown.to_owned())));
    assert_eq!(mode_of(&found(Some("local-only"), "\"local-only\"")), (Exposure::LocalOnly, None));
    assert_eq!(
        mode_of(&found(Some("network-accessible"), "\"network-accessible\"")),
        (Exposure::NetworkAccessible, None)
    );
    assert_eq!(mode_of(&Ok(None)), (Exposure::LocalOnly, None));
    let (exposure, wrong) = mode_of(&found(None, "7"));
    assert_eq!(exposure, Exposure::LocalOnly);
    assert!(wrong.expect("a complaint").starts_with("`mode` is 7, "));
    assert!(Exposure::NetworkAccessible.is_network_accessible());
    assert_eq!(Exposure::LocalOnly.mode(), "local-only");
}
