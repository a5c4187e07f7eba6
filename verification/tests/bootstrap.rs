use std::io::Write;

use lapce_java::archive::FsOp;
use lapce_java::bootstrap::{
    document_selector, is_initialize, Action, Bootstrap, DocumentFilter, Event, Phase,
    ServerLaunchSpec,
};
use lapce_java::failure::{failure_line, starting_line, Failure};
use lapce_java::options::Json;

fn object(members: Vec<(&str, Json)>) -> Json {
    Json::Object(members.into_iter().map(|(k, v)| (k.to_string(), v)).collect())
}

fn initialize(options: Option<Json>) -> Event {
    Event::Request { method: "initialize".to_string(), options }
}

fn request_options() -> Json {
    object(vec![(
        "lsp",
        object(vec![
            ("serverPath", Json::Text("/usr/bin/jdtls".to_string())),
            ("serverArgs", Json::List(vec![Json::Text("--verbose".to_string())])),
        ]),
    )])
}

fn argument_options() -> Json {
    object(vec![(
        "lsp",
        object(vec![(
            "serverArgs",
            Json::List(vec![Json::Text("-data".to_string()), Json::Text("/tmp/ws".to_string())]),
        )]),
    )])
}

fn probe() -> Action {
    Action::Probe {
        target: "jdt-language-server-latest".to_string(),
        payload: "jdt-language-server-latest.tar.gz".to_string(),
    }
}

fn fetch() -> Action {
    Action::Fetch {
        url: "http://download.eclipse.org/jdtls/snapshots/jdt-language-server-latest.tar.gz"
            .to_string(),
        payload: "jdt-language-server-latest.tar.gz".to_string(),
    }
}

fn load() -> Action {
    Action::Load { payload: "jdt-language-server-latest.tar.gz".to_string() }
}

fn java() -> Vec<DocumentFilter> {
    vec![DocumentFilter { language: "java".to_string(), pattern: "**/*.java".to_string() }]
}

fn small_payload() -> Vec<u8> {
    let mut builder = tar::Builder::new(Vec::new());
    let mut header = tar::Header::new_gnu();
    header.set_entry_type(tar::EntryType::Regular);
    header.set_size(2);
    header.set_mode(0o755);
    builder.append_data(&mut header, "bin/jdtls", &b"ok"[..]).unwrap();
    let stream = builder.into_inner().unwrap();
    let mut encoder = flate2::write::GzEncoder::new(Vec::new(), flate2::Compression::fast());
    encoder.write_all(&stream).unwrap();
    encoder.finish().unwrap()
}

struct Counted {
    machine: Bootstrap,
    fetches: usize,
    installs: usize,
    registrations: usize,
    reports: usize,
}

impl Counted {
    fn new() -> Counted {
        Counted { machine: Bootstrap::new(), fetches: 0, installs: 0, registrations: 0, reports: 0 }
    }

    fn step(&mut self, event: Event) -> Action {
        let action = self.machine.step(event);
        match &action {
            Action::Fetch { .. } => self.fetches += 1,
            Action::Install { .. } => self.installs += 1,
            Action::Register { .. } => self.registrations += 1,
            Action::Report { .. } => self.reports += 1,
            _ => {}
        }
        action
    }
}

#[test]
fn selector_is_for_java_sources() {
    assert_eq!(document_selector(), java());
}

#[test]
fn only_initialize_is_handled() {
    assert!(is_initialize(&"initialize".to_string()));
    assert!(!is_initialize(&"initialized".to_string()));
    assert!(!is_initialize(&"Initialize".to_string()));
    assert!(!is_initialize(&"".to_string()));
    let mut machine = Bootstrap::new();
    let action = machine.step(Event::Request { method: "shutdown".to_string(), options: None });
    assert_eq!(action, Action::Ignore);
    assert_eq!(machine.phase, Phase::Idle);
}

#[test]
fn explicit_server_is_registered_at_once() {
    let mut run = Counted::new();
    let action = run.step(initialize(Some(request_options())));
    assert_eq!(
        action,
        Action::Register {
            spec: ServerLaunchSpec {
                location: "/usr/bin/jdtls".to_string(),
                args: vec!["--verbose".to_string()],
                selector: java(),
                options: Some(request_options()),
                explicit: true,
            },
        }
    );
    assert_eq!(run.machine.phase, Phase::Done);
    for event in [
        Event::Probed { target_exists: false, payload_exists: false },
        Event::Fetched,
        Event::Loaded { payload: small_payload() },
        Event::Installed,
        Event::Located { base: "file:///x".to_string() },
        Event::Failed { failure: Failure::Network },
    ] {
        assert_eq!(run.step(event), Action::Ignore);
        assert_eq!(run.machine.phase, Phase::Done);
    }
    assert_eq!(run.fetches, 0);
    assert_eq!(run.installs, 0);
    assert_eq!(run.registrations, 1);
}

#[test]
fn default_server_is_fetched_and_installed() {
    let mut run = Counted::new();
    assert_eq!(run.step(initialize(Some(object(vec![])))), probe());
    assert_eq!(run.machine.phase, Phase::Probing);
    assert_eq!(
        run.step(Event::Probed { target_exists: false, payload_exists: false }),
        fetch()
    );
    assert_eq!(run.machine.phase, Phase::Fetching);
    assert_eq!(run.step(Event::Fetched), load());
    assert_eq!(run.machine.phase, Phase::Loading);
    assert_eq!(
        run.step(Event::Loaded { payload: small_payload() }),
        Action::Install {
            target: "jdt-language-server-latest".to_string(),
            ops: vec![FsOp::WriteFile { path: b"bin/jdtls".to_vec(), data: b"ok".to_vec() }],
        }
    );
    assert_eq!(run.machine.phase, Phase::Installing);
    assert_eq!(run.step(Event::Installed), Action::Locate);
    assert_eq!(run.machine.phase, Phase::Locating);
    assert_eq!(
        run.step(Event::Located { base: "file:///plugins/java".to_string() }),
        Action::Register {
            spec: ServerLaunchSpec {
                location: "file:///plugins/java/jdt-language-server-latest/bin/jdtls".to_string(),
                args: vec![],
                selector: java(),
                options: Some(object(vec![])),
                explicit: false,
            },
        }
    );
    assert_eq!(run.machine.phase, Phase::Done);
    assert_eq!((run.fetches, run.installs, run.registrations, run.reports), (1, 1, 1, 0));
}

#[test]
fn second_bootstrap_finds_the_server_installed() {
    let mut run = Counted::new();
    run.step(initialize(None));
    run.step(Event::Probed { target_exists: false, payload_exists: false });
    run.step(Event::Fetched);
    run.step(Event::Loaded { payload: small_payload() });
    run.step(Event::Installed);
    run.step(Event::Located { base: "file:///w".to_string() });
    assert_eq!((run.fetches, run.installs, run.registrations), (1, 1, 1));
    assert_eq!(run.step(initialize(None)), probe());
    assert_eq!(
        run.step(Event::Probed { target_exists: true, payload_exists: true }),
        Action::Locate
    );
    assert_eq!(
        run.step(Event::Located { base: "file:///w".to_string() }),
        Action::Register {
            spec: ServerLaunchSpec {
                location: "file:///w/jdt-language-server-latest/bin/jdtls".to_string(),
                args: vec![],
                selector: java(),
                options: None,
                explicit: false,
            },
        }
    );
    assert_eq!((run.fetches, run.installs, run.registrations), (1, 1, 2));
}

#[test]
fn installed_server_needs_no_payload() {
    let mut run = Counted::new();
    run.step(initialize(None));
    assert_eq!(
        run.step(Event::Probed { target_exists: true, payload_exists: false }),
        Action::Locate
    );
    assert_eq!((run.fetches, run.installs), (0, 0));
}

#[test]
fn stored_payload_is_not_fetched_again() {
    let mut run = Counted::new();
    run.step(initialize(None));
    assert_eq!(
        run.step(Event::Probed { target_exists: false, payload_exists: true }),
        load()
    );
    assert_eq!(run.machine.phase, Phase::Loading);
    assert_eq!(run.fetches, 0);
}

#[test]
fn default_server_gets_the_arguments() {
    let mut machine = Bootstrap::new();
    assert_eq!(machine.step(initialize(Some(argument_options()))), probe());
    assert_eq!(machine.options, Some(argument_options()));
    machine.step(Event::Probed { target_exists: true, payload_exists: false });
    assert_eq!(
        machine.step(Event::Located { base: "file:///w/".to_string() }),
        Action::Register {
            spec: ServerLaunchSpec {
                location: "file:///w/jdt-language-server-latest/bin/jdtls".to_string(),
                args: vec!["-data".to_string(), "/tmp/ws".to_string()],
                selector: java(),
                options: Some(argument_options()),
                explicit: false,
            },
        }
    );
}

#[test]
fn network_failure_is_reported_and_nothing_registered() {
    let mut run = Counted::new();
    run.step(initialize(None));
    run.step(Event::Probed { target_exists: false, payload_exists: false });
    assert_eq!(
        run.step(Event::Failed { failure: Failure::Network }),
        Action::Report { failure: Failure::Network }
    );
    assert_eq!(run.machine.phase, Phase::Failed);
    assert_eq!(run.step(Event::Fetched), Action::Ignore);
    assert_eq!(run.step(Event::Located { base: "file:///w".to_string() }), Action::Ignore);
    assert_eq!((run.registrations, run.reports), (0, 1));
}

#[test]
fn broken_payload_is_reported() {
    let mut run = Counted::new();
    run.step(initialize(None));
    run.step(Event::Probed { target_exists: false, payload_exists: true });
    assert_eq!(
        run.step(Event::Loaded { payload: b"garbage".to_vec() }),
        Action::Report { failure: Failure::Archive }
    );
    assert_eq!(run.machine.phase, Phase::Failed);
    assert_eq!((run.installs, run.registrations, run.reports), (0, 0, 1));
}

#[test]
fn each_failure_is_passed_on() {
    for failure in [Failure::Network, Failure::Filesystem, Failure::Archive, Failure::Location] {
        let mut machine = Bootstrap::new();
        machine.step(initialize(None));
        assert_eq!(machine.step(Event::Failed { failure }), Action::Report { failure });
        assert_eq!(machine.phase, Phase::Failed);
    }
}

#[test]
fn failure_without_a_bootstrap_is_ignored() {
    let mut machine = Bootstrap::new();
    assert_eq!(machine.step(Event::Failed { failure: Failure::Filesystem }), Action::Ignore);
    assert_eq!(machine.phase, Phase::Idle);
}

#[test]
fn request_during_a_bootstrap_is_ignored() {
    let mut machine = Bootstrap::new();
    machine.step(initialize(None));
    assert_eq!(machine.step(initialize(None)), Action::Ignore);
    assert_eq!(machine.phase, Phase::Probing);
}

#[test]
fn events_out_of_turn_are_ignored() {
    let mut machine = Bootstrap::new();
    machine.step(initialize(None));
    assert_eq!(machine.step(Event::Fetched), Action::Ignore);
    assert_eq!(machine.step(Event::Installed), Action::Ignore);
    assert_eq!(machine.step(Event::Loaded { payload: small_payload() }), Action::Ignore);
    assert_eq!(machine.step(Event::Located { base: "b".to_string() }), Action::Ignore);
    assert_eq!(machine.phase, Phase::Probing);
}

#[test]
fn bootstrap_after_a_failure_starts_over() {
    let mut machine = Bootstrap::new();
    machine.step(initialize(None));
    machine.step(Event::Failed { failure: Failure::Network });
    assert_eq!(machine.step(initialize(None)), probe());
    assert_eq!(machine.phase, Phase::Probing);
}

#[test]
fn phases_that_wait() {
    for phase in [Phase::Probing, Phase::Fetching, Phase::Loading, Phase::Installing, Phase::Locating] {
        assert!(phase.busy());
    }
    for phase in [Phase::Idle, Phase::Done, Phase::Failed] {
        assert!(!phase.busy());
    }
}

#[test]
fn new_handler_is_idle() {
    for machine in [Bootstrap::new(), Bootstrap::default()] {
        assert_eq!(machine.phase, Phase::Idle);
        assert!(machine.args.is_empty());
        assert!(machine.options.is_none());
    }
}

#[test]
fn options_are_dropped_once_the_server_is_registered() {
    let mut machine = Bootstrap::new();
    machine.step(initialize(Some(argument_options())));
    machine.step(Event::Probed { target_exists: true, payload_exists: true });
    machine.step(Event::Located { base: "file:///w".to_string() });
    assert_eq!(machine.phase, Phase::Done);
    assert!(machine.options.is_none());
    assert_eq!(machine.args, vec!["-data".to_string(), "/tmp/ws".to_string()]);
}

#[test]
fn log_lines() {
    assert_eq!(
        failure_line(Failure::Network),
        "plugin returned with error: the server archive could not be downloaded"
    );
    assert_eq!(
        failure_line(Failure::Filesystem),
        "plugin returned with error: a file or directory could not be read or written"
    );
    assert_eq!(
        failure_line(Failure::Archive),
        "plugin returned with error: the server archive could not be unpacked"
    );
    assert_eq!(
        failure_line(Failure::Location),
        "plugin returned with error: the location of the server is not a valid URI"
    );
    assert_eq!(Failure::Archive.message(), "the server archive could not be unpacked");
    assert_eq!(starting_line("file:///w/bin/jdtls"), "Starting java lsp server: file:///w/bin/jdtls");
}

#[test]
fn location_as_uri() {
    let explicit = ServerLaunchSpec {
        location: "/usr/bin/jdtls".to_string(),
        args: vec![],
        selector: java(),
        options: None,
        explicit: true,
    };
    assert_eq!(explicit.uri(), "urn:/usr/bin/jdtls");
    let provisioned = ServerLaunchSpec {
        location: "file:///w/jdt-language-server-latest/bin/jdtls".to_string(),
        args: vec![],
        selector: java(),
        options: None,
        explicit: false,
    };
    assert_eq!(provisioned.uri(), "file:///w/jdt-language-server-latest/bin/jdtls");
}
