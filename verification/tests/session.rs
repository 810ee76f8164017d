//! A session: what it starts from, and what it owes for each thing that happens.

use laplus::config::AgentSettings;
use laplus::config::OpenCodeSettings;
use laplus::provider::DriverKind;
use laplus::provider::ProviderIdentity;
use laplus::provider::ResumeCursor;
use laplus::session::checkpoint;
use laplus::session::model::Activity;
use laplus::session::model::ApprovalRequest;
use laplus::session::model::Change;
use laplus::session::model::Decision;
use laplus::session::model::Decided;
use laplus::session::model::Effect;
use laplus::session::model::Event;
use laplus::session::model::Finished;
use laplus::session::model::InFlight;
use laplus::session::model::Prompt;
use laplus::session::model::Pushed;
use laplus::session::model::Reply;
use laplus::session::model::Retune;
use laplus::session::model::Session;
use laplus::session::model::Settles;
use laplus::session::model::Signal;
use laplus::session::model::Wait;
use laplus::session::prepare;
use laplus::session::prompt;
use laplus::session::queue_failure;
use laplus::session::spend;
use laplus::session::starting;
use laplus::session::CheckpointRow;
use laplus::session::Drift;
use laplus::session::DriverStart;
use laplus::session::InstanceUnavailable;
use laplus::session::Machine;
use laplus::session::PreparedDriver;
use laplus::session::QueueFailure;
use laplus::session::Start;
use laplus::session::Step;
use laplus::session::Taken;
use laplus::session::Thread;
use laplus::session::TokenUsage;
use laplus::settling::SessionStatus;

fn identity(instance: &str) -> ProviderIdentity<String> {
    ProviderIdentity { driver: DriverKind::Claude.as_str().to_owned(), instance_id: instance.to_owned() }
}

fn agent(driver: DriverKind) -> AgentSettings<String, Vec<String>> {
    AgentSettings {
        enabled: true,
        binary_path: driver.command_name(),
        home_path: String::new(),
        launch_args: String::new(),
        custom_models: Vec::new(),
    }
}

fn thread() -> Thread {
    Thread {
        id: "thread-1".to_owned(),
        provider: identity("claudeAgent"),
        model: Some("opus".to_owned()),
        runtime_mode: "full-access".to_owned(),
        provider_resume_cursor: None,
    }
}

fn prepared() -> PreparedDriver {
    PreparedDriver {
        identity: identity("claudeAgent"),
        driver: DriverStart::Claude(agent(DriverKind::Claude)),
    }
}

fn start() -> Start {
    starting(&thread(), "/work", prepared())
}

#[test]
fn a_driver_cursor_crosses_the_shared_boundary_without_socket_changes() {
    let cursor = || ResumeCursor {
        provider: identity("claudeAgent"),
        value: r#"{"version":1,"sessionId":"opaque-upstream"}"#.to_owned(),
    };
    let owed: Vec<Effect<String, &str>> = spend(&start().provider, Vec::new(), Some(cursor()));
    assert_eq!(owed, vec![Effect::Remember(cursor())], "a cursor changed the conversation");

    let foreign = ResumeCursor { provider: identity("another"), ..cursor() };
    let owed: Vec<Effect<String, &str>> = spend(&start().provider, vec!["a", "b"], Some(foreign));
    assert_eq!(owed, vec![Effect::Relay("a"), Effect::Relay("b")]);
}

#[test]
fn session_launch_carries_only_the_cursor_owned_by_its_provider() {
    let cursor = || ResumeCursor {
        provider: identity("claudeAgent"),
        value: r#"{"version":3,"opaque":true}"#.to_owned(),
    };
    let mut thread = thread();
    thread.provider_resume_cursor = Some(cursor());
    let started = starting(&thread, "/work", prepared());
    assert_eq!(started.resume_cursor, Some(cursor()));

    thread.provider_resume_cursor = Some(ResumeCursor { provider: identity("another"), ..cursor() });
    assert_eq!(starting(&thread, "/work", prepared()).resume_cursor, None);
}

#[test]
fn settings_go_with_their_own_driver() {
    let opencode = DriverStart::OpenCode(OpenCodeSettings {
        enabled: true,
        binary_path: "opencode".to_owned(),
        server_url: String::new(),
        server_password: String::new(),
        custom_models: Vec::new(),
    });
    let first = DriverStart::Claude(agent(DriverKind::Claude));
    let codex = DriverStart::Codex(agent(DriverKind::Codex));
    let name = DriverKind::Claude.display_name();
    assert!(first.claude().is_ok() && codex.codex().is_ok() && opencode.opencode().is_ok());
    assert_eq!(codex.claude().unwrap_err(), "the Codex turn driver has not landed yet");
    assert_eq!(
        opencode.claude().unwrap_err(),
        format!("OpenCode settings were paired with the {name} driver")
    );
    assert_eq!(
        first.codex().unwrap_err(),
        format!("Codex settings were paired with the {name} driver")
    );
    assert_eq!(opencode.codex().unwrap_err(), "OpenCode settings were paired with the Codex driver");
    assert_eq!(first.opencode().unwrap_err(), "OpenCode settings were paired with another driver");
}

#[test]
fn a_thread_without_a_provider_is_told_why() {
    let told = |why| prepare(&thread(), Err(why)).map(|_| ()).unwrap_err();
    assert_eq!(
        told(InstanceUnavailable::Unknown),
        "Provider instance 'claudeAgent' is not registered, so thread 'thread-1' cannot start a turn."
    );
    assert_eq!(
        told(InstanceUnavailable::Disabled),
        "Provider instance 'claudeAgent' is disabled, so thread 'thread-1' cannot start a turn."
    );
    assert_eq!(
        told(InstanceUnavailable::Mismatched { configured: "codex".to_owned(), recorded: "opencode".to_owned() }),
        "Provider instance 'claudeAgent' is registered for driver 'codex', but thread 'thread-1' records 'opencode'."
    );
    assert!(prepare(&thread(), Ok(prepared())).is_ok());
    assert!(queue_failure(QueueFailure::Full).contains("was not queued"));
    assert!(queue_failure(QueueFailure::Closed).contains("has ended"));
}

#[test]
fn a_turn_is_recorded_or_says_why_not() {
    let finished = || Finished { turn_id: "turn-1".to_owned(), status: "completed".to_owned() };
    assert_eq!(
        checkpoint(3, finished(), Taken::Recorded),
        CheckpointRow::Checkpointed {
            turn_id: "turn-1".to_owned(),
            turn_count: 4,
            status: "completed".to_owned()
        }
    );
    assert_eq!(checkpoint(3, finished(), Taken::NotARepository), CheckpointRow::Nothing);
    assert_eq!(checkpoint(3, finished(), Taken::Gone), CheckpointRow::Nothing);
    match checkpoint(3, finished(), Taken::Refused { detail: "locked".to_owned() }) {
        CheckpointRow::Failed(Activity::Failed { kind, summary }) => {
            assert_eq!(kind, "checkpoint.failed");
            assert!(summary.ends_with("locked"));
        }
        other => panic!("{other:?}"),
    }
}

type Happened = Event<String, Vec<&'static str>>;

fn nothing() -> Decided<String, Vec<&'static str>> {
    Decided { changes: Vec::new(), provider_resume_cursor: None, settles: None, reverts: None }
}

/// A session that has started its agent and waits.
fn waiting() -> Machine {
    let mut machine = Machine::new(start(), false, 1);
    assert_eq!(machine.first(), Wait::Open);
    let opened: Step<&str> = machine.step(Event::Opened(Ok(nothing())));
    assert_eq!(opened.wait, Wait::Poll);
    let idle: Step<&str> = machine.step(Event::Polled(None));
    assert_eq!(idle.wait, Wait::Select { signals: true, prompts: true });
    machine
}

fn turn(id: &str) -> Prompt<String> {
    prompt(&start(), id.to_owned(), "hello".to_owned())
}

/// What a session waits for after each of these.
fn waits(machine: &mut Machine, happened: Vec<Happened>) -> Vec<Wait<String>> {
    happened.into_iter().map(|event| machine.step(event).wait).collect()
}

#[test]
fn a_turn_goes_to_the_agent_and_ends() {
    let mut machine = waiting();
    assert_eq!(
        waits(
            &mut machine,
            vec![Event::Prompted(Some(turn("turn-1"))), Event::Polled(None), Event::Recorded]
        ),
        vec![Wait::Poll, Wait::Baseline, Wait::Send { text: "hello".to_owned() }]
    );
    let sent: Step<&str> = machine.step(Event::Wrote(Ok(())));
    assert_eq!(sent.wait, Wait::Poll);
    assert_eq!(machine.driving.turn.as_ref().map(|turn| turn.turn_id.as_str()), Some("turn-1"));
    let _: Step<&str> = machine.step(Event::Polled(None));
    let said: Step<&str> = machine.step(Event::Said(Some(Decided { changes: vec!["a word"], ..nothing() })));
    assert_eq!(said.effects, vec![Effect::Relay("a word")]);

    let _: Step<&str> = machine.step(Event::Polled(None));
    let settles =
        Settles { turn_id: Some("turn-1".to_owned()), status: SessionStatus::Ready, last_error: None };
    let asked: Step<&str> = machine.step(Event::Said(Some(Decided { settles: Some(settles), ..nothing() })));
    assert_eq!(asked.wait, Wait::ActiveTurn);
    let ended: Step<&str> = machine.step(Event::Active(Some("turn-1".to_owned())));
    assert!(ended.effects.iter().any(|effect| matches!(effect, Effect::Apply(Change::Session(session))
        if session.status == SessionStatus::Ready && session.active_turn_id.is_none())));
}

#[test]
fn what_a_session_was_started_with_stands() {
    let mut machine = waiting();
    let kept = start();
    machine.driving.drift_to_report(Drift { unread: 3 });
    for event in [Event::Prompted(Some(turn("turn-1"))), Event::Polled(None), Event::Recorded, Event::Wrote(Ok(()))] {
        let _: Step<&str> = machine.step(event);
        assert_eq!(machine.start.thread_id, kept.thread_id);
        assert_eq!(machine.start.workspace_root, kept.workspace_root);
        assert_eq!(machine.start.resume_cursor, kept.resume_cursor);
        assert_eq!(machine.driving.provider, kept.provider);
        assert_eq!(machine.driving.reported_usage, None);
    }
    assert_eq!(machine.driving.drift_to_report(Drift { unread: 3 }), Drift { unread: 0 });
}

#[test]
fn a_stop_ends_the_session() {
    let mut machine = waiting();
    let stopping: Step<&str> = machine.step(Event::Signalled(Some(Signal::Stop)));
    assert!(matches!(stopping.wait, Wait::Stop { asked_to_stop: true }));
}

#[test]
fn another_mode_is_pushed_before_the_turn() {
    let mut machine = waiting();
    let wanted = Retune { runtime_mode: "read-only".to_owned(), model: Some("opus".to_owned()) };
    let _: Step<&str> = machine.step(Event::Prompted(Some(Prompt { wanted, ..turn("turn-1") })));
    let step: Step<&str> = machine.step(Event::Polled(None));
    match step.wait {
        Wait::Retune { asked: Pushed::Mode { previous, asked }, .. } => {
            assert_eq!(previous, "full-access");
            assert_eq!(asked, "read-only");
        }
        other => panic!("waited for {other:?}"),
    }
    let _: Step<&str> = machine.step(Event::Wrote(Ok(())));
    assert_eq!(machine.start.runtime_mode, "read-only");
}

#[test]
fn an_agent_that_does_not_start_says_why() {
    let mut machine = Machine::new(start(), false, 1);
    let step: Step<&str> = machine.step(Event::Opened(Err("no such binary".to_owned())));
    assert!(step.effects.iter().any(|effect| format!("{effect:?}").contains("no such binary")));
}

#[test]
fn a_refused_push_is_put_back() {
    let mut started = start();
    let push = Pushed::Model { previous: Some("opus".to_owned()), asked: "haiku".to_owned() };
    assert_eq!(push.what(), "model");
    push.apply(&mut started);
    assert_eq!(started.model.as_deref(), Some("haiku"));
    assert_eq!(
        push.sentence("unknown model"),
        "The agent would not change to the 'haiku' model and is still running 'opus': unknown model"
    );
    push.revert(&mut started);
    assert_eq!(started.model.as_deref(), Some("opus"));
}

/// One step, of an agent whose rows are words.
fn after(machine: &mut Machine, event: Happened) -> Step<&'static str> {
    machine.step(event)
}

/// A session whose turn is with the agent, and which waits.
fn working() -> Machine {
    let mut machine = waiting();
    for event in [
        Event::Prompted(Some(turn("turn-1"))),
        Event::Polled(None),
        Event::Recorded,
        Event::Wrote(Ok(())),
        Event::Polled(None),
    ] {
        after(&mut machine, event);
    }
    machine
}

fn failed(kind: &str, summary: &str) -> Effect<String, &'static str> {
    Effect::Apply(Change::Activity(Activity::Failed { kind: kind.to_owned(), summary: summary.to_owned() }))
}

fn permission(id: &str) -> ApprovalRequest<String> {
    ApprovalRequest { request_id: id.to_owned(), question: false, body: "{}".to_owned() }
}

fn question(id: &str) -> ApprovalRequest<String> {
    ApprovalRequest { question: true, ..permission(id) }
}

#[test]
fn an_unmoved_turn_is_announced_at_once() {
    let mut machine = waiting();
    after(&mut machine, Event::Prompted(Some(turn("turn-1"))));
    let step = after(&mut machine, Event::Polled(None));
    assert_eq!(step.wait, Wait::Baseline);
    assert_eq!(
        step.effects,
        vec![Effect::Apply(Change::Session(Session {
            status: SessionStatus::Running,
            runtime_mode: "full-access".to_owned(),
            active_turn_id: Some("turn-1".to_owned()),
            last_error: None,
        }))]
    );
}

#[test]
fn a_push_that_cannot_be_written_is_said_and_the_turn_goes_on() {
    let mut machine = waiting();
    let wanted = Retune { runtime_mode: "read-only".to_owned(), model: Some("haiku".to_owned()) };
    after(&mut machine, Event::Prompted(Some(Prompt { wanted, ..turn("turn-1") })));
    let mode = after(&mut machine, Event::Polled(None));
    assert!(matches!(mode.wait, Wait::Retune { request_id, .. } if request_id == "retune-1"));
    let refused = after(&mut machine, Event::Wrote(Err("broken pipe".to_owned())));
    assert_eq!(
        refused.effects,
        vec![failed(
            "session.retune-failed",
            "The agent could not be told which runtime mode this turn wants, because it is no longer reading: broken pipe"
        )]
    );
    assert_eq!(machine.start.runtime_mode, "full-access");
    assert!(matches!(refused.wait, Wait::Retune { request_id, .. } if request_id == "retune-2"));
    let told = after(&mut machine, Event::Wrote(Ok(())));
    assert_eq!(told.wait, Wait::Baseline);
    assert_eq!(machine.start.model.as_deref(), Some("haiku"));
    assert!(machine.driving.landed("retune-1").is_none());
    assert!(machine.driving.landed("retune-2").is_some());
    assert!(machine.driving.landed("retune-2").is_none());
}

#[test]
fn an_interrupt_that_stops_nothing_changes_nothing() {
    let mut idle = waiting();
    let step = after(&mut idle, Event::Signalled(Some(Signal::Interrupt { turn_id: None })));
    assert_eq!(step.effects, vec![]);
    assert_eq!(step.wait, Wait::Poll);

    let mut other = working();
    let wanted = Some("turn-9".to_owned());
    let step = after(&mut other, Event::Signalled(Some(Signal::Interrupt { turn_id: wanted })));
    assert_eq!(step.effects, vec![]);
    assert_eq!(other.driving.interrupts, 0);
}

#[test]
fn a_stop_is_recorded_once_it_was_written() {
    let mut machine = working();
    let asked = after(&mut machine, Event::Signalled(Some(Signal::Interrupt { turn_id: None })));
    assert_eq!(asked.wait, Wait::Interrupt { request_id: "interrupt-1".to_owned() });
    assert_eq!(asked.effects, vec![]);
    assert!(!machine.driving.turn.as_ref().expect("a turn").was_stopped());

    let mut deaf = working();
    after(&mut deaf, Event::Signalled(Some(Signal::Interrupt { turn_id: None })));
    let refused = after(&mut deaf, Event::Wrote(Err("broken pipe".to_owned())));
    assert_eq!(
        refused.effects,
        vec![failed(
            "turn.interrupt-failed",
            "The agent could not be asked to stop, because it is no longer reading: broken pipe"
        )]
    );
    assert!(!deaf.driving.turn.as_ref().expect("a turn").was_stopped());

    let written = after(&mut machine, Event::Wrote(Ok(())));
    assert_eq!(written.effects.len(), 2);
    assert_eq!(
        written.effects[0],
        Effect::Apply(Change::InterruptRequested { turn_id: "turn-1".to_owned() })
    );
    assert!(machine.driving.turn.as_ref().expect("a turn").awaiting("interrupt-1"));
    after(&mut machine, Event::Polled(None));
    let twice = after(&mut machine, Event::Signalled(Some(Signal::Interrupt { turn_id: None })));
    assert_eq!(twice.effects, vec![]);
    assert_eq!(machine.driving.interrupts, 1);
}

#[test]
fn a_turn_is_stopped_by_the_first_thing_that_stops_it() {
    let mut turn = InFlight::new("turn-1".to_owned());
    assert!(!turn.was_stopped());
    assert!(turn.stop("interrupt-1"));
    assert!(!turn.stop("interrupt-2"));
    assert!(turn.awaiting("interrupt-1"));
    assert!(!turn.awaiting("interrupt-2"));
    turn.carries_on();
    assert!(!turn.was_stopped());
    assert!(turn.stop("interrupt-2"));
}

#[test]
fn a_decision_is_written_before_it_is_published() {
    let mut machine = working();
    machine.driving.ask(permission("ask-1"));
    let answer =
        || Signal::Answer { request_id: "ask-1".to_owned(), decision: Decision::Other("accept".to_owned()) };
    let asked = after(&mut machine, Event::Signalled(Some(answer())));
    assert_eq!(asked.effects, vec![]);
    assert_eq!(
        asked.wait,
        Wait::Answer {
            asked: permission("ask-1"),
            reply: Reply::Decided(Decision::Other("accept".to_owned()))
        }
    );
    let resolved = after(&mut machine, Event::Wrote(Err("broken pipe".to_owned())));
    assert_eq!(
        resolved.effects,
        vec![
            failed(
                "session.failed",
                "The decision could not be sent to the agent, which is no longer reading: broken pipe"
            ),
            Effect::Apply(Change::Activity(Activity::Resolved {
                asked: permission("ask-1"),
                decision: Decision::Other("accept".to_owned()),
                turn_id: Some("turn-1".to_owned()),
            })),
        ]
    );
    after(&mut machine, Event::Polled(None));
    let again = after(&mut machine, Event::Signalled(Some(answer())));
    assert_eq!(
        again.effects,
        vec![Effect::Apply(Change::Activity(Activity::Unanswerable { request_id: "ask-1".to_owned() }))]
    );
}

#[test]
fn a_cancelled_permission_stops_the_turn() {
    let mut machine = working();
    machine.driving.ask(permission("ask-1"));
    let cancel = Signal::Answer { request_id: "ask-1".to_owned(), decision: Decision::Cancel };
    after(&mut machine, Event::Signalled(Some(cancel)));
    let resolved = after(&mut machine, Event::Wrote(Ok(())));
    assert_eq!(resolved.effects.len(), 3);
    assert_eq!(
        resolved.effects[1],
        Effect::Apply(Change::InterruptRequested { turn_id: "turn-1".to_owned() })
    );
    assert!(machine.driving.turn.as_ref().expect("a turn").awaiting("ask-1"));
}

#[test]
fn answers_close_their_question() {
    let mut machine = working();
    machine.driving.ask(question("ask-2"));
    let answers =
        Signal::AnswerUserInput { request_id: "ask-2".to_owned(), answers: "{\"a\":1}".to_owned() };
    let asked = after(&mut machine, Event::Signalled(Some(answers)));
    assert!(matches!(asked.wait, Wait::Answer { reply: Reply::Answers(_), .. }));
    let resolved = after(&mut machine, Event::Wrote(Ok(())));
    assert_eq!(
        resolved.effects,
        vec![Effect::Apply(Change::Activity(Activity::UserInputResolved {
            request_id: "ask-2".to_owned(),
            answers: "{\"a\":1}".to_owned(),
            turn_id: Some("turn-1".to_owned()),
        }))]
    );
}

#[test]
fn an_ending_closes_every_open_request_and_leaves_no_reply_streaming() {
    let mut machine = working();
    machine.driving.ask(question("b"));
    machine.driving.ask(permission("a"));
    machine.driving.turn.as_mut().expect("a turn").assistant_message_id = Some("message-1".to_owned());
    let ending = after(&mut machine, Event::Said(None));
    assert_eq!(
        ending.effects,
        vec![
            Effect::Apply(Change::AssistantMessage {
                message_id: "message-1".to_owned(),
                turn_id: "turn-1".to_owned(),
                text: String::new(),
            }),
            Effect::Apply(Change::Activity(Activity::Resolved {
                asked: permission("a"),
                decision: Decision::Cancel,
                turn_id: Some("turn-1".to_owned()),
            })),
            Effect::Apply(Change::Activity(Activity::UnanswerableUserInput { request_id: "b".to_owned() })),
        ]
    );
    assert_eq!(ending.wait, Wait::Stop { asked_to_stop: false });
    assert_eq!(machine.driving.outstanding.len(), 0);
}

#[test]
fn an_ending_says_why_and_the_turn_is_checkpointed_as_an_error() {
    let mut machine = working();
    after(&mut machine, Event::Said(None));
    let reaped =
        after(&mut machine, Event::Reaped { refused: None, death: Some("the agent died".to_owned()) });
    assert_eq!(reaped.effects, vec![failed("session.failed", "the agent died")]);
    assert_eq!(reaped.wait, Wait::Detach { epoch: 1 });
    let detached = after(&mut machine, Event::Detached(true));
    assert_eq!(
        detached.effects,
        vec![Effect::Apply(Change::Session(Session {
            status: SessionStatus::Error,
            runtime_mode: "full-access".to_owned(),
            active_turn_id: None,
            last_error: Some("the agent died".to_owned()),
        }))]
    );
    assert_eq!(
        detached.wait,
        Wait::Checkpoint(Finished { turn_id: "turn-1".to_owned(), status: "error".to_owned() })
    );
    let over = after(&mut machine, Event::Recorded);
    assert_eq!(over.wait, Wait::Over);
}

#[test]
fn a_refused_resume_is_the_reason_that_counts() {
    let mut machine = waiting();
    after(&mut machine, Event::Said(None));
    let reaped = after(
        &mut machine,
        Event::Reaped { refused: Some("no such session".to_owned()), death: Some("exit 1".to_owned()) },
    );
    assert_eq!(reaped.effects, vec![failed("session.resume-failed", "no such session")]);
    let detached = after(&mut machine, Event::Detached(true));
    assert!(matches!(&detached.effects[0], Effect::Apply(Change::Session(session))
        if session.last_error.as_deref() == Some("no such session")));
    assert_eq!(detached.wait, Wait::Over);
}

#[test]
fn a_replaced_session_says_nothing_of_its_ending() {
    let mut machine = working();
    after(&mut machine, Event::Said(None));
    after(&mut machine, Event::Reaped { refused: None, death: None });
    let detached = after(&mut machine, Event::Detached(false));
    assert_eq!(detached.effects, vec![]);
    assert_eq!(detached.wait, Wait::Over);
}

#[test]
fn a_session_asked_to_stop_records_nothing() {
    let mut machine = working();
    after(&mut machine, Event::Signalled(Some(Signal::Stop)));
    after(&mut machine, Event::Reaped { refused: None, death: None });
    let detached = after(&mut machine, Event::Detached(true));
    assert!(matches!(&detached.effects[0], Effect::Apply(Change::Session(session))
        if session.status == SessionStatus::Stopped && session.last_error.is_none()));
    assert_eq!(detached.wait, Wait::Over);
}

#[test]
fn a_turn_that_cannot_be_sent_ends_the_session() {
    let mut machine = waiting();
    after(&mut machine, Event::Prompted(Some(turn("turn-1"))));
    after(&mut machine, Event::Polled(None));
    after(&mut machine, Event::Recorded);
    let refused = after(&mut machine, Event::Wrote(Err("broken pipe".to_owned())));
    assert_eq!(refused.wait, Wait::Stop { asked_to_stop: false });
    let reaped = after(&mut machine, Event::Reaped { refused: None, death: None });
    let why = "The turn could not be sent to the agent: broken pipe";
    assert_eq!(reaped.effects, vec![failed("session.failed", why)]);
}

#[test]
fn a_steered_prompt_joins_the_turn_in_flight() {
    let mut machine = Machine::new(start(), true, 1);
    for event in [
        Event::Opened(Ok(nothing())),
        Event::Polled(None),
        Event::Prompted(Some(turn("turn-1"))),
        Event::Polled(None),
        Event::Recorded,
        Event::Wrote(Ok(())),
        Event::Polled(None),
    ] {
        after(&mut machine, event);
    }
    let steered = after(&mut machine, Event::Prompted(Some(turn("turn-2"))));
    assert_eq!(steered.wait, Wait::Send { text: "hello".to_owned() });
    let refused = after(&mut machine, Event::Wrote(Err("broken pipe".to_owned())));
    assert_eq!(
        refused.effects,
        vec![failed("turn.steer-failed", "The steer could not be sent to the agent: broken pipe")]
    );
    assert_eq!(machine.driving.turn.as_ref().map(|turn| turn.turn_id.as_str()), Some("turn-1"));
}

#[test]
fn a_waiting_prompt_is_kept_until_its_turn() {
    let mut machine = working();
    after(&mut machine, Event::Prompted(Some(turn("turn-2"))));
    let waits = after(&mut machine, Event::Polled(None));
    assert_eq!(waits.wait, Wait::Select { signals: true, prompts: false });
    assert_eq!(machine.waiting.as_ref().map(|prompt| prompt.turn_id.as_str()), Some("turn-2"));
}

#[test]
fn a_closed_channel_closes_the_agents_input() {
    let mut machine = waiting();
    let closed = after(&mut machine, Event::Prompted(None));
    assert_eq!(closed.effects, vec![Effect::CloseInput]);
    let waits = after(&mut machine, Event::Polled(None));
    assert_eq!(waits.wait, Wait::Select { signals: true, prompts: false });
    after(&mut machine, Event::Signalled(None));
    let deaf = after(&mut machine, Event::Polled(None));
    assert_eq!(deaf.wait, Wait::Select { signals: false, prompts: false });
}

#[test]
fn a_late_ending_is_not_published() {
    let mut machine = working();
    let settles =
        Settles { turn_id: Some("turn-1".to_owned()), status: SessionStatus::Ready, last_error: None };
    after(&mut machine, Event::Said(Some(Decided { settles: Some(settles), ..nothing() })));
    let late = after(&mut machine, Event::Active(Some("turn-2".to_owned())));
    assert_eq!(late.effects, vec![]);
}

#[test]
fn a_refused_push_is_reverted_and_announced_again() {
    let mut machine = working();
    machine.start.runtime_mode = "read-only".to_owned();
    let push = Pushed::Mode { previous: "full-access".to_owned(), asked: "read-only".to_owned() };
    let said = after(&mut machine, Event::Said(Some(Decided { reverts: Some(push), ..nothing() })));
    assert_eq!(machine.start.runtime_mode, "full-access");
    assert_eq!(
        said.effects,
        vec![Effect::Apply(Change::Session(Session {
            status: SessionStatus::Running,
            runtime_mode: "full-access".to_owned(),
            active_turn_id: Some("turn-1".to_owned()),
            last_error: None,
        }))]
    );
}

#[test]
fn a_measurement_follows_what_was_said() {
    let mut machine = working();
    machine.driving.unmeasured = true;
    let said = after(&mut machine, Event::Said(Some(nothing())));
    assert_eq!(said.wait, Wait::Measure { request_id: "context-1".to_owned() });
    assert!(!machine.driving.unmeasured);
    let measured = after(&mut machine, Event::Wrote(Err("broken pipe".to_owned())));
    assert_eq!(measured.effects, vec![]);
    assert_eq!(measured.wait, Wait::Poll);
}

#[test]
fn what_was_reported_is_not_reported_again() {
    let mut machine = waiting();
    assert_eq!(machine.driving.drift_to_report(Drift { unread: 3 }), Drift { unread: 3 });
    assert_eq!(machine.driving.drift_to_report(Drift { unread: 5 }), Drift { unread: 2 });
    let reading = |row: &str| Some(TokenUsage { row: row.to_owned() });
    assert_eq!(machine.driving.usage_to_report(reading("10%")), reading("10%"));
    assert_eq!(machine.driving.usage_to_report(reading("10%")), None);
    assert_eq!(machine.driving.usage_to_report(None), None);
    assert_eq!(machine.driving.usage_to_report(reading("11%")), reading("11%"));
}
