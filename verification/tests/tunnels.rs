//! Tunnels: dedicating, creating, forgetting and deleting one.

use laplus::public_exposure::MutationIntent;
use laplus::public_exposure::MutationState;
use laplus::public_exposure::MutationStep;
use laplus::public_exposure::Refusal;
use laplus::public_exposure::RefusalKind;
use laplus::public_exposure::RefusalReason;
use laplus::public_exposure::TunnelOwnership;
use laplus::tunnels::adoption;
use laplus::tunnels::adoption::Adoption;
use laplus::tunnels::any_completed_step;
use laplus::tunnels::completed_step_targeting;
use laplus::tunnels::creation;
use laplus::tunnels::creation::Creation;
use laplus::tunnels::finish;
use laplus::tunnels::has_begun;
use laplus::tunnels::managed_connector_already_owns_exposure;
use laplus::tunnels::mutation_steps;
use laplus::tunnels::offered_deletion;
use laplus::tunnels::ownership_is_not_the_clients_to_change;
use laplus::tunnels::remaining_steps;
use laplus::tunnels::removal;
use laplus::tunnels::removal::Cleanup;
use laplus::tunnels::removal::Removal;
use laplus::tunnels::report::cleanup_report;
use laplus::tunnels::report::unfinished_creation;
use laplus::tunnels::report::CleanupState;
use laplus::tunnels::settle_journaled_step;
use laplus::tunnels::unconfirmed_message;
use laplus::tunnels::unconfirmed_reason;
use laplus::tunnels::Answer;
use laplus::tunnels::Confirmations;
use laplus::tunnels::DeletionConfirmation;
use laplus::tunnels::Endpoint;
use laplus::tunnels::JournalEntry;
use laplus::tunnels::DELETION_CONFIRMATION_TTL;

const ORIGIN: &str = "https://laplus.example.com";

fn endpoint(ownership: TunnelOwnership) -> Endpoint<String> {
    Endpoint {
        https_origin: ORIGIN.to_owned(),
        ownership,
        tunnel_id: Some("t-1".to_owned()),
        dns_record_name: Some("laplus.example.com".to_owned()),
    }
}

fn entry(
    sequence: i64,
    intent: MutationIntent,
    step: MutationStep,
    state: MutationState,
    detail: &str,
) -> JournalEntry<String> {
    JournalEntry { sequence, intent, step, state, detail: Some(detail.to_owned()) }
}

fn refusal() -> Refusal {
    Refusal::rejected(RefusalReason::CommandFailed, "cloudflared said no to hush")
}

#[test]
fn what_is_left_is_what_was_not_done() {
    assert_eq!(
        mutation_steps(MutationIntent::Adopt),
        [MutationStep::Credential, MutationStep::Configuration]
    );
    assert_eq!(
        mutation_steps(MutationIntent::Create),
        [MutationStep::TunnelCreate, MutationStep::DnsRoute, MutationStep::Configuration]
    );
    assert_eq!(
        remaining_steps(&mutation_steps(MutationIntent::Create), &vec![MutationStep::DnsRoute]),
        [MutationStep::TunnelCreate, MutationStep::Configuration]
    );
    assert_eq!(settle_journaled_step(true), MutationState::Completed);
    assert_eq!(settle_journaled_step(false), MutationState::Failed);
}

#[test]
fn a_journal_says_what_began_and_what_was_done() {
    let journal = vec![
        entry(1, MutationIntent::Create, MutationStep::TunnelCreate, MutationState::Failed, "laplus"),
        entry(2, MutationIntent::Create, MutationStep::DnsRoute, MutationState::Completed, "a.example.com"),
    ];
    assert!(has_begun(&journal, MutationIntent::Create, MutationStep::TunnelCreate));
    assert!(!any_completed_step(&journal, MutationIntent::Create, MutationStep::TunnelCreate));
    assert!(any_completed_step(&journal, MutationIntent::Create, MutationStep::DnsRoute));
    assert!(!any_completed_step(&journal, MutationIntent::Adopt, MutationStep::DnsRoute));
    assert!(completed_step_targeting(
        &journal,
        MutationIntent::Create,
        MutationStep::DnsRoute,
        "a.example.com"
    ));
    assert!(!completed_step_targeting(
        &journal,
        MutationIntent::Create,
        MutationStep::DnsRoute,
        "b.example.com"
    ));
    let left = unfinished_creation(&Some(journal), &None, None, false).expect("unfinished");
    assert_eq!(left.name.as_deref(), Some("laplus"));
    assert_eq!(left.hostname.as_deref(), Some("a.example.com"));
    assert_eq!(left.completed, [MutationStep::DnsRoute]);
    assert_eq!(left.remaining, [MutationStep::TunnelCreate, MutationStep::Configuration]);
    assert!(unfinished_creation(&Some(vec![]), &None, None, false).is_none());
}

#[test]
fn a_tunnel_is_deleted_only_where_it_was_made() {
    assert_eq!(offered_deletion(&Some(endpoint(TunnelOwnership::LaplusCreated))), Ok("t-1".to_owned()));
    for ownership in [TunnelOwnership::Adopted, TunnelOwnership::External] {
        let refused = offered_deletion(&Some(endpoint(ownership))).unwrap_err();
        assert_eq!(refused.reason, RefusalReason::NotLaplusCreated);
    }
    assert!(offered_deletion(&None).is_err());
    assert!(managed_connector_already_owns_exposure(true).is_some());
    assert!(managed_connector_already_owns_exposure(false).is_none());
    assert!(ownership_is_not_the_clients_to_change(Some(TunnelOwnership::External)).is_none());
    let owned = ownership_is_not_the_clients_to_change(Some(TunnelOwnership::LaplusCreated)).expect("refused");
    assert!(owned.message.contains("laplus-created"));
}

#[test]
fn a_confirmation_is_good_once_and_for_what_it_was_offered() {
    let offer = |minted_at: u64| DeletionConfirmation {
        tunnel_id: "t-1".to_owned(),
        dns_record_name: Some("laplus.example.com".to_owned()),
        https_origin: ORIGIN.to_owned(),
        minted_at,
    };
    let recorded = endpoint(TunnelOwnership::LaplusCreated);
    let mut held = Confirmations::new();
    held.offer("yes".to_owned(), offer(5), 5);
    assert!(!held.spend("no", &recorded, "t-1", 6));
    assert!(held.spend("yes", &recorded, "t-1", 6));
    assert!(!held.spend("yes", &recorded, "t-1", 7), "spent twice");

    held.offer("late".to_owned(), offer(5), 5);
    assert!(!held.spend("late", &recorded, "t-1", 5 + DELETION_CONFIRMATION_TTL));

    held.offer("moved".to_owned(), offer(5), 5);
    let other = Endpoint { https_origin: "https://other.example.com".to_owned(), ..recorded };
    assert!(!held.spend("moved", &other, "t-1", 6));
    assert!(!unconfirmed_message().is_empty() && !unconfirmed_reason().is_empty());
}

fn facts() -> adoption::Facts<String> {
    adoption::Facts {
        selection: Some(adoption::Selection {
            tunnel_id: "t-1".to_owned(),
            https_origin: ORIGIN.to_owned(),
            adoptable: true,
        }),
        recorded: None,
        dedicated_tunnel_id: None,
        credential_held: false,
        credential_path: "/c".to_owned(),
        configuration_path: "/k".to_owned(),
    }
}

#[test]
fn a_tunnel_is_dedicated_step_by_step() {
    let (mut adopting, turn) = Adoption::begin(facts()).expect("begins");
    assert_eq!(turn.action, adoption::Action::Recheck { tunnel_id: "t-1".to_owned() });
    let turn = adopting.step(adoption::Event::Rechecked(Ok(false)));
    assert_eq!(
        turn.action,
        adoption::Action::Retrieve { tunnel_id: "t-1".to_owned(), detail: "/c".to_owned() }
    );
    let turn = adopting.step(adoption::Event::Tried(Ok(())));
    assert_eq!(turn.settled, Some(MutationState::Completed));
    let turn = adopting.step(adoption::Event::Tried(Ok(())));
    match turn.action {
        adoption::Action::Register { endpoint, .. } => {
            assert_eq!(endpoint.ownership, TunnelOwnership::Adopted);
            assert_eq!(endpoint.dns_record_name, None);
        }
        other => panic!("{other:?}"),
    }
    assert_eq!(adopting.step(adoption::Event::Wrote(true)).action, adoption::Action::Confirm);
    assert_eq!(
        adopting.step(adoption::Event::Tried(Ok(()))).action,
        adoption::Action::Answer(Answer::Done)
    );
}

#[test]
fn a_dedication_that_fails_says_how_far_it_came() {
    let (mut adopting, _) = Adoption::begin(adoption::Facts { credential_held: true, ..facts() }).expect("begins");
    adopting.step(adoption::Event::Rechecked(Ok(false)));
    let turn = adopting.step(adoption::Event::Tried(Err(refusal())));
    assert_eq!(turn.settled, Some(MutationState::Failed));
    match turn.action {
        adoption::Action::Answer(Answer::Refused(told)) => {
            assert_eq!(told.completed, [MutationStep::Credential]);
            assert_eq!(told.remaining, [MutationStep::Configuration]);
        }
        other => panic!("{other:?}"),
    }

    let (mut raced, _) = Adoption::begin(facts()).expect("begins");
    assert_eq!(raced.step(adoption::Event::Rechecked(Ok(true))).action, adoption::Action::Reclassify);
    raced.step(adoption::Event::Tried(Ok(())));
    match raced.step(adoption::Event::Wrote(true)).action {
        adoption::Action::Answer(Answer::Refused(told)) => {
            assert_eq!(told.reason, RefusalReason::TunnelBecameActive)
        }
        other => panic!("{other:?}"),
    }

    let reason = |facts| Adoption::begin(facts).map(|_| ()).unwrap_err().reason;
    assert_eq!(reason(adoption::Facts { selection: None, ..facts() }), RefusalReason::SelectionStale);
    assert_eq!(
        reason(adoption::Facts {
            recorded: Some(Endpoint {
                tunnel_id: Some("t-2".to_owned()),
                ..endpoint(TunnelOwnership::LaplusCreated)
            }),
            ..facts()
        }),
        RefusalReason::OwnershipConflict
    );
}

fn request() -> creation::Request<String> {
    creation::read_request("laplus.example.com", Ok("laplus".to_owned())).expect("a request")
}

fn fresh() -> creation::Facts<String, Vec<JournalEntry<String>>> {
    creation::Facts {
        recorded: None,
        journal: vec![],
        held: None,
        configured: false,
        serves: false,
        dedicated_tunnel_id: None,
        credential_path: "/c".to_owned(),
        configuration_path: "/k".to_owned(),
    }
}

#[test]
fn a_tunnel_is_created_step_by_step() {
    assert_eq!(request().https_origin, ORIGIN);
    assert_eq!(request().dns_name, "laplus.example.com");
    let (mut creating, turn) = Creation::begin(fresh(), request()).expect("begins");
    assert_eq!(turn.action, creation::Action::Create { name: "laplus".to_owned() });
    let turn = creating.step(creation::Event::Created(Ok("t-1".to_owned())));
    assert_eq!(
        turn.action,
        creation::Action::Route { tunnel_id: "t-1".to_owned(), dns_name: "laplus.example.com".to_owned() }
    );
    assert_eq!(turn.settled.expect("settled").state, MutationState::Completed);
    creating.step(creation::Event::Tried(Ok(())));
    let turn = creating.step(creation::Event::Tried(Ok(())));
    match turn.action {
        creation::Action::Register { endpoint, .. } => {
            assert_eq!(endpoint.ownership, TunnelOwnership::LaplusCreated);
            assert_eq!(endpoint.dns_record_name.as_deref(), Some("laplus.example.com"));
        }
        other => panic!("{other:?}"),
    }
    creating.step(creation::Event::Wrote(true));
    assert_eq!(
        creating.step(creation::Event::Tried(Ok(()))).action,
        creation::Action::Answer(Answer::Done)
    );
}

#[test]
fn a_creation_that_was_interrupted_resumes_with_its_tunnel() {
    let interrupted = creation::Facts {
        journal: vec![
            entry(1, MutationIntent::Create, MutationStep::TunnelCreate, MutationState::Completed, "t-1"),
            entry(2, MutationIntent::Create, MutationStep::DnsRoute, MutationState::Completed, "laplus.example.com"),
        ],
        held: Some("t-1".to_owned()),
        ..fresh()
    };
    let (_, turn) = Creation::begin(interrupted, request()).expect("begins");
    assert!(matches!(turn.action, creation::Action::Configure { .. }));

    let foreign = creation::Facts { held: Some("t-9".to_owned()), ..fresh() };
    let refused = Creation::begin(foreign, request()).map(|_| ()).unwrap_err();
    assert_eq!((refused.kind, refused.reason), (RefusalKind::Precondition, RefusalReason::OwnershipConflict));
    assert_eq!(
        creation::read_request("localhost", Ok("laplus".to_owned())).unwrap_err().reason,
        RefusalReason::HostnameInvalid
    );
    assert!(creation::request_of(Ok(ORIGIN.to_owned()), Err(refusal())).is_err());
}

#[test]
fn forgetting_removes_only_what_is_local() {
    let cleanup = Cleanup::resumed(&vec![], MutationIntent::Forget, true, true);
    assert!(cleanup.completed.is_empty());
    let (mut forgetting, turn) = Removal::forget(cleanup, "/k".to_owned(), "/c".to_owned());
    assert_eq!(turn.action, removal::Action::StopConnector);
    let turn = forgetting.step(removal::Event::Wrote(true));
    assert_eq!(turn.action, removal::Action::RemoveConfiguration { detail: "/k".to_owned() });
    let turn = forgetting.step(removal::Event::Tried(Ok(())));
    assert_eq!(turn.action, removal::Action::RemoveCredential { detail: "/c".to_owned() });
    let turn = forgetting.step(removal::Event::Tried(Ok(())));
    assert_eq!(turn.action, removal::Action::ForgetEndpoint);
    assert_eq!(forgetting.step(removal::Event::Wrote(true)).action, removal::Action::ForgetSelection);
    assert_eq!(
        forgetting.step(removal::Event::Tried(Ok(()))).action,
        removal::Action::Answer(Answer::Done)
    );

    let (mut stuck, _) =
        Removal::forget(Cleanup::resumed(&vec![], MutationIntent::Forget, true, true), "/k".to_owned(), "/c".to_owned());
    match stuck.step(removal::Event::Wrote(false)).action {
        removal::Action::Answer(Answer::Refused(told)) => {
            assert_eq!(told.reason, RefusalReason::LocalSetupFailed)
        }
        other => panic!("{other:?}"),
    }
}

#[test]
fn nothing_is_deleted_before_it_is_confirmed() {
    let begin = || {
        Removal::delete(
            Cleanup::resumed(&vec![], MutationIntent::DeleteEverywhere, true, true),
            "t-1".to_owned(),
            Some("laplus.example.com".to_owned()),
            false,
            "hush".to_owned(),
            "/k".to_owned(),
            "/c".to_owned(),
        )
    };
    let (mut deleting, turn) = begin();
    assert_eq!(turn.action, removal::Action::Authorize);
    let turn = deleting.step(removal::Event::Tried(Ok(())));
    assert_eq!(turn.action, removal::Action::Lookup { record: "laplus.example.com".to_owned() });
    deleting.step(removal::Event::Located(Ok(true)));
    let turn = deleting.step(removal::Event::Wrote(true));
    assert_eq!(turn.action, removal::Action::Spend { tunnel_id: "t-1".to_owned() });
    assert_eq!(deleting.step(removal::Event::Spent(true)).action, removal::Action::StopConnector);
    let turn = deleting.step(removal::Event::Wrote(true));
    assert_eq!(
        turn.action,
        removal::Action::DeleteRecord { detail: Some("laplus.example.com".to_owned()), located: true }
    );
    deleting.step(removal::Event::Tried(Ok(())));
    match deleting.step(removal::Event::Tried(Err(refusal()))).action {
        removal::Action::Answer(Answer::Refused(told)) => {
            assert_eq!(told.message, "cloudflared said no to [REDACTED]");
            assert_eq!(told.completed, [MutationStep::DnsRecordDelete]);
            assert!(told.remaining.contains(&MutationStep::TunnelDelete));
        }
        other => panic!("{other:?}"),
    }

    let (mut unconfirmed, _) = begin();
    unconfirmed.step(removal::Event::Tried(Ok(())));
    unconfirmed.step(removal::Event::Located(Ok(false)));
    assert_eq!(
        unconfirmed.step(removal::Event::Spent(false)).action,
        removal::Action::Answer(Answer::Unconfirmed)
    );
}

#[test]
fn a_tunnel_that_is_run_already_is_not_rechecked() {
    let adopted = Endpoint { dns_record_name: None, ..endpoint(TunnelOwnership::Adopted) };
    let running =
        adoption::Facts { recorded: Some(adopted), credential_held: true, ..facts() };
    let (_, turn) = Adoption::begin(running).expect("begins");
    assert_eq!(
        turn.action,
        adoption::Action::Configure {
            tunnel_id: "t-1".to_owned(),
            https_origin: ORIGIN.to_owned(),
            detail: "/k".to_owned()
        }
    );
    let dedicated = adoption::Facts { dedicated_tunnel_id: Some("t-1".to_owned()), ..facts() };
    let (_, turn) = Adoption::begin(dedicated).expect("begins");
    assert!(matches!(turn.action, adoption::Action::Retrieve { .. }));
}

#[test]
fn a_repeated_creation_is_a_read() {
    let done = creation::Facts {
        recorded: Some(endpoint(TunnelOwnership::LaplusCreated)),
        held: Some("t-1".to_owned()),
        configured: true,
        serves: true,
        dedicated_tunnel_id: Some("t-1".to_owned()),
        ..fresh()
    };
    let (_, turn) = Creation::begin(done, request()).expect("begins");
    assert!(turn.settled.is_none());
    assert!(matches!(turn.action, creation::Action::Register { .. }));
}

#[test]
fn a_borrowed_tunnel_is_never_recorded_as_created() {
    let reason = |facts| Creation::begin(facts, request()).map(|_| ()).unwrap_err().reason;
    assert_eq!(
        reason(creation::Facts { recorded: Some(endpoint(TunnelOwnership::Adopted)), ..fresh() }),
        RefusalReason::OwnershipConflict
    );
    assert_eq!(
        reason(creation::Facts { configured: true, serves: false, ..fresh() }),
        RefusalReason::OwnershipConflict
    );
    assert_eq!(
        reason(creation::Facts { configured: true, serves: true, ..fresh() }),
        RefusalReason::OwnershipConflict
    );
}

#[test]
fn a_creation_that_fails_says_how_far_it_came() {
    let (mut creating, _) = Creation::begin(fresh(), request()).expect("begins");
    let turn = creating.step(creation::Event::Created(Err((refusal(), Some("t-7".to_owned())))));
    let settled = turn.settled.expect("settled");
    assert_eq!((settled.state, settled.detail.as_deref()), (MutationState::Failed, Some("t-7")));
    match turn.action {
        creation::Action::Answer(Answer::Refused(told)) => {
            assert!(told.completed.is_empty());
            assert_eq!(told.remaining, mutation_steps(MutationIntent::Create));
        }
        other => panic!("{other:?}"),
    }

    let (mut unwritten, _) = Creation::begin(fresh(), request()).expect("begins");
    unwritten.step(creation::Event::Created(Ok("t-1".to_owned())));
    unwritten.step(creation::Event::Tried(Ok(())));
    unwritten.step(creation::Event::Tried(Ok(())));
    assert_eq!(
        unwritten.step(creation::Event::Wrote(false)).action,
        creation::Action::Answer(Answer::Failed)
    );
}

/// The journal of a deletion whose two remote steps are done.
fn deleted_remotely() -> Vec<JournalEntry<String>> {
    let intent = MutationIntent::DeleteEverywhere;
    vec![
        entry(7, intent, MutationStep::DnsRecordDelete, MutationState::Completed, "laplus.example.com"),
        entry(8, intent, MutationStep::TunnelDelete, MutationState::Completed, "t-1"),
    ]
}

#[test]
fn a_deletion_that_is_resumed_repeats_no_step() {
    let cleanup = Cleanup::resumed(&deleted_remotely(), MutationIntent::DeleteEverywhere, false, true);
    let (mut deleting, turn) = Removal::delete(
        cleanup,
        "t-1".to_owned(),
        Some("laplus.example.com".to_owned()),
        false,
        String::new(),
        "/k".to_owned(),
        "/c".to_owned(),
    );
    assert_eq!(turn.action, removal::Action::Spend { tunnel_id: "t-1".to_owned() });
    assert_eq!(deleting.step(removal::Event::Spent(true)).action, removal::Action::StopConnector);
    let mut turn = deleting.step(removal::Event::Wrote(true));
    if let removal::Action::StopConnector = turn.action {
        turn = deleting.step(removal::Event::Wrote(true));
    }
    assert_eq!(turn.action, removal::Action::RemoveCredential { detail: "/c".to_owned() });
}

#[test]
fn a_report_says_what_a_retry_would_do() {
    let recorded = Some(endpoint(TunnelOwnership::LaplusCreated));
    let report = |journal: Option<Vec<JournalEntry<String>>>, configuration: bool, credentials: bool| {
        cleanup_report(&journal, &recorded, false, configuration, credentials)
    };
    assert_eq!(report(None, true, true).state, CleanupState::Intact);
    assert_eq!(report(Some(vec![]), true, true).state, CleanupState::Intact);
    assert_eq!(cleanup_report(&None, &None, true, true, true).state, CleanupState::Stopped);

    let partly = report(Some(deleted_remotely()), false, true);
    assert_eq!(partly.state, CleanupState::PartiallyDeleted);
    assert_eq!(partly.tunnel_id.as_deref(), Some("t-1"));
    assert_eq!(partly.dns_record_name.as_deref(), Some("laplus.example.com"));
    assert_eq!(partly.remaining, [MutationStep::CredentialRemove]);
    let retried = Cleanup::resumed(&deleted_remotely(), MutationIntent::DeleteEverywhere, false, true);
    assert_eq!(partly.completed, retried.completed);

    assert_eq!(report(Some(deleted_remotely()), false, false).state, CleanupState::FullyRemoved);

    let mut forgotten = deleted_remotely();
    forgotten.push(entry(
        9,
        MutationIntent::Forget,
        MutationStep::ConfigurationRemove,
        MutationState::Completed,
        "/k",
    ));
    assert_eq!(report(Some(forgotten), false, true).state, CleanupState::CleanupRequired);
}

#[test]
fn what_is_finished_is_cleared_and_a_setup_is_verified() {
    let adopted = finish(MutationIntent::Adopt, &Answer::Done);
    assert_eq!(adopted.cleared, [MutationIntent::Adopt]);
    assert!(adopted.verifies);
    let created = finish(MutationIntent::Create, &Answer::Done);
    assert_eq!(created.cleared, [MutationIntent::Create]);
    assert!(created.verifies);
    for cleanup in [MutationIntent::Forget, MutationIntent::DeleteEverywhere] {
        let cleaned = finish(cleanup, &Answer::Done);
        assert_eq!(cleaned.cleared, [MutationIntent::Adopt, MutationIntent::Create]);
        assert!(!cleaned.verifies);
    }
    for intent in
        [MutationIntent::Adopt, MutationIntent::Create, MutationIntent::Forget, MutationIntent::DeleteEverywhere]
    {
        for answer in [Answer::Failed, Answer::Unconfirmed, Answer::Refused(refusal())] {
            let unfinished = finish(intent, &answer);
            assert_eq!(unfinished.cleared, []);
            assert!(!unfinished.verifies);
        }
    }
}

#[test]
fn a_creation_whose_journal_was_cleared_is_not_unfinished() {
    let journal = vec![
        entry(1, MutationIntent::Create, MutationStep::TunnelCreate, MutationState::Completed, "t-1"),
        entry(2, MutationIntent::Adopt, MutationStep::Credential, MutationState::Completed, "/keys"),
    ];
    let begun = unfinished_creation(&Some(journal), &None, Some("t-1".to_owned()), false);
    assert!(begun.is_some());
    let cleared = finish(MutationIntent::Create, &Answer::Done).cleared;
    let left = vec![
        entry(1, MutationIntent::Create, MutationStep::TunnelCreate, MutationState::Completed, "t-1"),
        entry(2, MutationIntent::Adopt, MutationStep::Credential, MutationState::Completed, "/keys"),
    ]
    .into_iter()
    .filter(|entry| !cleared.contains(&entry.intent))
    .collect::<Vec<_>>();
    assert_eq!(left.len(), 1);
    assert_eq!(unfinished_creation(&Some(left), &None, Some("t-1".to_owned()), false), None);
}
