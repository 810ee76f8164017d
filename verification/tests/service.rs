//! The background service: its unit, where it runs from, and how it is installed
//! and removed.

use laplus::service::activation::failure;
use laplus::service::activation::Action;
use laplus::service::activation::Copying;
use laplus::service::activation::Directory;
use laplus::service::activation::Doing;
use laplus::service::activation::Event;
use laplus::service::activation::Installation;
use laplus::service::activation::Ran;
use laplus::service::activation::Staging;
use laplus::service::activation::Step;
use laplus::service::activation::Uninstalling;
use laplus::service::destination;
use laplus::service::home;
use laplus::service::installing_path;
use laplus::service::is_ephemeral;
use laplus::service::join_path;
use laplus::service::locations;
use laplus::service::plan;
use laplus::service::status;
use laplus::service::unit::escape;
use laplus::service::unit::quote;
use laplus::service::unit::render;
use laplus::service::unit::started_the_same_way;
use laplus::service::unit::Plan;
use laplus::service::Machine;
use laplus::service::Outcome;
use laplus::service::Status;
use laplus::service::Verb;

fn plan_for(binary: &str, ui: Option<&str>, arguments: &[&str]) -> Plan<String, Vec<String>> {
    Plan {
        binary: binary.to_owned(),
        ui: ui.map(str::to_owned),
        arguments: arguments.iter().map(|argument| argument.to_string()).collect(),
        path: "/home/ubuntu/.local/bin:/usr/bin".to_owned(),
        unit_path: "/home/ubuntu/.config/systemd/user/laplus.service".to_owned(),
        log_path: "/home/ubuntu/.laplus/logs/service.log".to_owned(),
    }
}

#[test]
fn the_unit_runs_the_binary_with_the_bundle_and_the_flags() {
    let unit = render(&plan_for(
        "/home/ubuntu/.laplus/service/laplus-server",
        Some("/home/ubuntu/.laplus/service/ui"),
        &["--network", "--port", "4773"],
    ));
    assert!(unit.contains(
        "ExecStart=/home/ubuntu/.laplus/service/laplus-server \
         --ui /home/ubuntu/.laplus/service/ui --network --port 4773"
    ));
}

#[test]
fn the_unit_carries_the_installing_shells_path() {
    let unit = render(&plan_for("/opt/laplus-server", None, &[]));
    assert!(unit.contains("Environment=PATH=/home/ubuntu/.local/bin:/usr/bin"));
}

#[test]
fn both_streams_land_in_one_log() {
    let unit = render(&plan_for("/opt/laplus-server", None, &[]));
    assert!(unit.contains("StandardOutput=append:/home/ubuntu/.laplus/logs/service.log"));
    assert!(unit.contains("StandardError=append:/home/ubuntu/.laplus/logs/service.log"));
}

#[test]
fn a_restart_loop_gives_up_rather_than_growing_the_log_forever() {
    let unit = render(&plan_for("/opt/laplus-server", None, &[]));
    assert!(unit.contains("StartLimitIntervalSec=300"));
    assert!(unit.contains("StartLimitBurst=5"));
    assert!(unit.contains("Restart=always"));
}

#[test]
fn a_percent_in_a_path_is_doubled_rather_than_expanded() {
    let plan = Plan {
        log_path: "/home/ubuntu/100%/service.log".to_owned(),
        ..plan_for("/opt/100%/laplus-server", None, &[])
    };
    let unit = render(&plan);
    assert!(unit.contains("StandardOutput=append:/home/ubuntu/100%%/service.log"));
    assert!(unit.contains("ExecStart=/opt/100%%/laplus-server"));
}

#[test]
fn the_log_path_is_escaped_but_never_quoted() {
    let plan = Plan {
        log_path: "/home/some one/logs/service.log".to_owned(),
        ..plan_for("/opt/laplus-server", None, &[])
    };
    let unit = render(&plan);
    assert!(unit.contains("StandardOutput=append:/home/some one/logs/service.log"));
}

#[test]
fn a_space_in_the_binary_path_is_quoted() {
    let unit = render(&plan_for("/opt/la plus/laplus-server", None, &[]));
    assert!(unit.contains("ExecStart=\"/opt/la plus/laplus-server\""));
}

#[test]
fn no_ui_flag_when_there_is_no_bundle() {
    let unit = render(&plan_for("/opt/laplus-server", None, &[]));
    assert!(!unit.contains("--ui"));
}

#[test]
fn nothing_orders_on_a_target_the_user_manager_has_not_got() {
    let unit = render(&plan_for("/opt/laplus-server", None, &[]));
    assert!(!unit.contains("network-online.target"));
}

#[test]
fn values_are_escaped_and_quoted_apart() {
    assert_eq!(escape("100%"), "100%%");
    assert_eq!(quote("/plain"), "/plain");
    assert_eq!(quote("a b"), "\"a b\"");
    assert_ne!(quote("a b"), quote("a  b"));
    assert_ne!(escape("%"), escape("%%"));
}

#[test]
fn an_npx_cache_is_ephemeral_and_a_release_build_is_not() {
    assert!(is_ephemeral(
        "/home/ubuntu/.npm/_npx/bfd8de85db250405/node_modules/@laplus/server-linux-arm64/laplus-server"
    ));
    assert!(is_ephemeral("/home/ubuntu/.cache/pnpm/dlx/abc/node_modules/laplus-server"));
    assert!(!is_ephemeral("/home/ubuntu/laplus/server/target/release/laplus-server"));
    assert!(!is_ephemeral("/usr/local/bin/laplus-server"));
}

#[test]
fn the_installing_path_is_kept_and_the_system_directories_are_ensured() {
    assert_eq!(
        installing_path(Some("/home/ubuntu/.local/bin:/usr/bin")),
        "/home/ubuntu/.local/bin:/usr/bin:/usr/local/bin:/bin"
    );
}

#[test]
fn an_empty_path_still_gives_a_service_with_a_shell() {
    assert_eq!(installing_path(None), "/usr/local/bin:/usr/bin:/bin");
    assert_eq!(installing_path(Some("")), "/usr/local/bin:/usr/bin:/bin");
}

#[test]
fn the_verbs_have_the_spellings_an_operator_reaches_for() {
    assert_eq!(Verb::parse("install"), Ok(Verb::Install));
    assert_eq!(Verb::parse("update"), Ok(Verb::Install));
    assert_eq!(Verb::parse("repair"), Ok(Verb::Install));
    assert_eq!(Verb::parse("status"), Ok(Verb::Status));
    assert_eq!(Verb::parse("uninstall"), Ok(Verb::Uninstall));
    assert_eq!(Verb::parse("remove"), Ok(Verb::Uninstall));
    assert!(Verb::parse("start").is_err());
}

#[test]
fn an_unsupported_machine_says_so_rather_than_saying_not_installed() {
    let status = Status {
        supported: false,
        installed: false,
        current: false,
        unit_path: "laplus.service".to_owned(),
        log_path: "service.log".to_owned(),
    };
    assert!(status.to_text().contains("unavailable here"));
    assert!(status.to_text().contains("Linux with systemd"));
}

#[test]
fn an_out_of_date_service_says_what_to_run() {
    let status = Status {
        supported: true,
        installed: true,
        current: false,
        unit_path: "/home/ubuntu/.config/systemd/user/laplus.service".to_owned(),
        log_path: "/home/ubuntu/.laplus/logs/service.log".to_owned(),
    };
    assert!(status.to_text().contains("out of date"));
    assert!(status.to_text().contains("service install"));
}

#[test]
fn a_different_path_does_not_make_a_service_out_of_date() {
    let installed = render(&plan_for("/opt/laplus-server", None, &["--network"]));
    let asking = render(&Plan {
        path: "/usr/bin:/snap/bin".to_owned(),
        ..plan_for("/opt/laplus-server", None, &["--network"])
    });
    assert_ne!(installed, asking);
    assert!(started_the_same_way(&installed, &asking));
}

#[test]
fn a_different_binary_bundle_or_flag_does_make_it_out_of_date() {
    let installed = render(&plan_for("/opt/laplus-server", Some("/opt/ui"), &["--network"]));
    for changed in [
        plan_for("/opt/other/laplus-server", Some("/opt/ui"), &["--network"]),
        plan_for("/opt/laplus-server", Some("/opt/other-ui"), &["--network"]),
        plan_for("/opt/laplus-server", Some("/opt/ui"), &[]),
        plan_for("/opt/laplus-server", None, &["--network"]),
    ] {
        assert!(
            !started_the_same_way(&installed, &render(&changed)),
            "{:?} should have been out of date",
            changed.binary
        );
    }
}

#[test]
fn a_unit_with_no_exec_line_is_never_current() {
    assert!(!started_the_same_way("[Unit]\nDescription=laplus server\n", ""));
}

/// Performs what a staging asks for on a list of the files that are there, and
/// gives back what it ends with.
fn staged(binary: &str, ui: Option<&str>, data: &str, done: &mut Vec<String>) -> (String, Option<String>) {
    let (mut staging, mut next) = Staging::begin(binary.to_owned(), ui.map(str::to_owned), data.to_owned());
    loop {
        match next {
            Copying::Done(result) => return result.expect("staged"),
            other => {
                done.push(format!("{other:?}"));
                next = staging.step(&Ok(()));
            }
        }
    }
}

#[test]
fn the_predicted_destination_is_the_one_staging_uses() {
    let binary = "/scratch/_npx/hash/laplus-server";
    let ui = Some("/scratch/_npx/hash/ui".to_owned());
    let data = "/scratch/data";

    let predicted = destination(binary, &ui, data);
    assert_eq!(predicted, staged(binary, ui.as_deref(), data, &mut Vec::new()));
}

#[test]
fn a_stable_binary_is_predicted_where_it_already_is() {
    let binary = "/usr/local/bin/laplus-server".to_owned();
    let ui = "/usr/local/share/laplus/ui".to_owned();
    assert_eq!(
        destination(&binary, &Some(ui.clone()), "/home/ubuntu/.laplus"),
        (binary, Some(ui))
    );
}

#[test]
fn staging_leaves_a_stable_binary_where_it_is() {
    let mut done = Vec::new();
    let staged = staged("/usr/local/bin/laplus-server", None, "/home/ubuntu/.laplus", &mut done);
    assert_eq!(staged, ("/usr/local/bin/laplus-server".to_owned(), None));
    assert!(done.is_empty());
}

#[test]
fn staging_copies_a_cached_binary_and_its_bundle_out() {
    let mut done = Vec::new();
    let (binary, ui) = staged(
        "/scratch/_npx/hash/laplus-server",
        Some("/scratch/_npx/hash/ui"),
        "/scratch/data",
        &mut done,
    );
    assert_eq!(binary, "/scratch/data/service/laplus-server");
    assert_eq!(ui.as_deref(), Some("/scratch/data/service/ui"));
    let copies: Vec<&String> = done.iter().filter(|step| step.starts_with("Copy")).collect();
    assert_eq!(copies.len(), 2);
    assert!(copies[0].contains("/scratch/_npx/hash/laplus-server"));
    assert!(copies[1].contains("/scratch/_npx/hash/ui"));
}

#[test]
fn staging_that_fails_says_what_it_could_not_do() {
    let (mut staging, _) = Staging::begin("/x/_npx/y/laplus-server".to_owned(), None, "/data".to_owned());
    match staging.step(&Err("read-only".to_owned())) {
        Copying::Done(Err(why)) => assert_eq!(why, "cannot make /data/service: read-only"),
        other => panic!("went on with {other:?}"),
    }
}

fn machine() -> Machine {
    Machine {
        linux: true,
        home: Some("/home/ubuntu".to_owned()),
        data: "/home/ubuntu/.laplus".to_owned(),
        path: Some("/usr/bin".to_owned()),
    }
}

#[test]
fn a_plan_points_where_the_service_will_run() {
    assert_eq!(join_path("/a", "b"), "/a/b");
    assert_eq!(join_path("/a/", "b"), "/a/b");
    assert_eq!(join_path("", "b"), "b");
    assert_eq!(
        locations("/home/ubuntu", "/home/ubuntu/.laplus"),
        (
            "/home/ubuntu/.config/systemd/user/laplus.service".to_owned(),
            "/home/ubuntu/.laplus/logs/service.log".to_owned()
        )
    );
    let made = plan(
        &machine(),
        vec!["--network".to_owned()],
        None,
        Ok("/x/_npx/y/laplus-server".to_owned()),
    )
    .expect("a plan");
    assert_eq!(made.binary, "/x/_npx/y/laplus-server");
    assert_eq!(made.path, "/usr/bin:/usr/local/bin:/bin");
    assert!(plan(&Machine { home: Some("  ".to_owned()), ..machine() }, vec![], None, Ok("/b".to_owned())).is_err());
    assert!(plan(&machine(), vec![], None, Err("gone".to_owned())).is_err());
    assert_eq!(home(&None), Err("HOME is not set, so there is no user systemd directory".to_owned()));
    assert!(machine().supported());
    assert!(!Machine { linux: false, ..machine() }.supported());
}

#[test]
fn a_status_says_what_is_there() {
    let made = plan_for("/opt/laplus-server", None, &[]);
    let unit = render(&made);
    let seen = status(&machine(), &Some(unit.clone()), Some(&made), true);
    assert!(seen.supported && seen.installed && seen.current);
    assert!(!status(&machine(), &Some(unit.clone()), Some(&made), false).current);
    assert!(!status(&machine(), &None, Some(&made), true).installed);
    assert!(!status(&Machine { linux: false, ..machine() }, &Some(unit), Some(&made), true).supported);
}

#[test]
fn a_unit_that_logs_elsewhere_is_out_of_date() {
    let made = plan_for("/opt/laplus-server", None, &[]);
    let moved = Plan { log_path: "/var/log/service.log".to_owned(), ..plan_for("/opt/laplus-server", None, &[]) };
    assert!(!started_the_same_way(&render(&moved), &render(&made)));
    assert!(!status(&machine(), &Some(render(&moved)), Some(&made), true).current);
    let elsewhere = Plan { path: "/opt/bin".to_owned(), ..plan_for("/opt/laplus-server", None, &[]) };
    assert!(started_the_same_way(&render(&elsewhere), &render(&made)));
    assert!(status(&machine(), &Some(render(&elsewhere)), Some(&made), true).current);
}

fn succeed(action: &Doing) -> Event<String> {
    match action {
        Action::MakeParent(_) => Event::Directory(Directory::Made),
        Action::WriteUnit { .. } => Event::Wrote(Ok(())),
        Action::Run(_) => Event::Ran(Ran::Succeeded),
        Action::RemoveFile(_) => Event::Removed(Ok(())),
        Action::Done(_) => panic!("already over"),
    }
}

/// Installs, failing the command named here, and gives back the commands that ran
/// and the end.
fn install(existing: Option<String>, failing: Option<Step>) -> (Vec<Step>, Doing) {
    let made = plan_for("/opt/laplus-server", None, &[]);
    let (mut installing, mut action) = Installation::begin(&made, true, existing, true);
    let mut ran = Vec::new();
    loop {
        let event = match &action {
            Action::Done(_) => return (ran, action),
            Action::Run(step) => {
                ran.push(*step);
                if Some(*step) == failing {
                    Event::Ran(Ran::Failed(" no bus \n".to_owned()))
                } else {
                    succeed(&action)
                }
            }
            _ => succeed(&action),
        };
        action = installing.step(&event);
    }
}

#[test]
fn a_service_is_installed_in_order() {
    let (ran, end) = install(None, None);
    assert_eq!(ran, [Step::Reload, Step::Enable, Step::Start, Step::Linger]);
    match end {
        Action::Done(Ok((Outcome::Installed(_), warnings))) => assert!(warnings.is_empty()),
        other => panic!("ended with {other:?}"),
    }
}

#[test]
fn an_unchanged_service_is_left_alone() {
    let unit = render(&plan_for("/opt/laplus-server", None, &[]));
    let (ran, end) = install(Some(unit), None);
    assert!(ran.is_empty());
    assert!(matches!(end, Action::Done(Ok((Outcome::Unchanged(_), _)))));
}

#[test]
fn a_service_that_does_not_start_is_undone() {
    let (ran, end) = install(None, Some(Step::Start));
    assert_eq!(ran, [Step::Reload, Step::Enable, Step::Start, Step::Remove, Step::Reload]);
    match end {
        Action::Done(Err(why)) => assert_eq!(why, "failed while starting the service: no bus"),
        other => panic!("ended with {other:?}"),
    }

    let (ran, end) = install(Some("[Service]\n".to_owned()), Some(Step::Enable));
    assert_eq!(ran, [Step::Reload, Step::Enable, Step::Reload, Step::Restore]);
    assert!(matches!(end, Action::Done(Err(_))));
}

#[test]
fn lingering_that_fails_is_only_a_warning() {
    let (_, end) = install(Some("[Service]\n".to_owned()), Some(Step::Linger));
    match end {
        Action::Done(Ok((Outcome::Updated(_), warnings))) => {
            assert_eq!(warnings.len(), 1);
            assert!(warnings[0].starts_with("failed while enabling lingering: no bus"));
        }
        other => panic!("ended with {other:?}"),
    }
}

#[test]
fn a_unit_is_deleted_only_once_it_is_stopped() {
    let path = "/home/ubuntu/.config/systemd/user/laplus.service".to_owned();
    let (mut removing, first) = Uninstalling::begin(true, path.clone(), true);
    assert_eq!(first, Action::Run(Step::Stop));
    let next = removing.step(&Event::Ran(Ran::Succeeded));
    assert_eq!(next, Action::RemoveFile(path.clone()));

    let (mut stuck, _) = Uninstalling::begin(true, path.clone(), true);
    let end = stuck.step(&Event::Ran(Ran::NotStarted("no such file".to_owned())));
    assert_eq!(
        end,
        Action::Done(Err("cannot run systemctl while stopping the service: no such file".to_owned()))
    );

    assert_eq!(
        Uninstalling::begin(true, path.clone(), false).1,
        Action::Done(Ok((Outcome::NotInstalled, vec![])))
    );
    assert_eq!(
        Uninstalling::begin(false, path, true).1,
        Action::Done(Err("the background service needs Linux with systemd".to_owned()))
    );
}

#[test]
fn a_command_that_says_nothing_is_named_by_its_step() {
    assert_eq!(failure(Step::Reload, &Ran::Succeeded), None);
    assert_eq!(
        failure(Step::Reload, &Ran::Failed("  ".to_owned())).as_deref(),
        Some("failed while reloading the user units")
    );
    assert_eq!(Step::Linger.program(), "loginctl");
    assert_eq!(Step::Stop.arguments(), ["--user", "disable", "--now", "laplus.service"]);
}
