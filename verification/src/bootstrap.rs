//! The bootstrap handler and the provisioning coordinator, as one state
//! machine. The machine decides; whoever drives it performs each action
//! (probing the working directory, the download, reading and writing files,
//! the calls to the host) and reports back with the matching event.

use vstd::prelude::*;
use crate::archive::{op_views, unpack, unpacked, FsOp, FsOpView};
use crate::failure::Failure;
use crate::options::{
    path_text, resolve, resolved, server_args, string_views, ChoiceView, Json, ServerChoice,
};
use crate::text::{concatenate, is_blank};
use crate::provision::{
    archive_name, archive_url, download_url, executable_location, joined, locate_executable,
    payload_name, target_name, SERVER_ID,
};

verus! {

/// One filter of a document selector.
#[derive(Debug, PartialEq, Eq)]
pub struct DocumentFilter {
    /// The language identifier of the documents.
    pub language: String,
    /// The glob pattern that the documents' paths match.
    pub pattern: String,
}

/// What the host is told when a server is registered.
#[derive(Debug, PartialEq, Eq)]
pub struct ServerLaunchSpec {
    /// The server's executable: the path from the options as it stands, or
    /// the location of the provisioned executable.
    pub location: String,
    /// The arguments for the server, in order.
    pub args: Vec<String>,
    /// The documents that the server is to handle.
    pub selector: Vec<DocumentFilter>,
    /// The initialization options of the request, handed on as they came.
    pub options: Option<Json>,
    /// Whether the location was given in the options.
    pub explicit: bool,
}

/// The mathematical value of a [`ServerLaunchSpec`]; a filter is the pair
/// of its language and its pattern.
pub struct LaunchView {
    pub location: Seq<char>,
    pub args: Seq<Seq<char>>,
    pub selector: Seq<(Seq<char>, Seq<char>)>,
    pub options: Option<Json>,
    pub explicit: bool,
}

/// The values of a list of filters, in order.
pub open spec fn filter_views(filters: Seq<DocumentFilter>) -> Seq<(Seq<char>, Seq<char>)> {
    Seq::new(filters.len(), |i: int| (filters[i].language@, filters[i].pattern@))
}

impl View for ServerLaunchSpec {
    type V = LaunchView;

    open spec fn view(&self) -> LaunchView {
        LaunchView {
            location: self.location@,
            args: string_views(self.args@),
            selector: filter_views(self.selector@),
            options: self.options,
            explicit: self.explicit,
        }
    }
}

impl ServerLaunchSpec {
    /// The location as the URI that the host is given: a path from the
    /// options is put under the scheme `urn`, the location of the
    /// provisioned executable is a URI as it stands.
    pub open spec fn uri_text(self) -> Seq<char> {
        if self.explicit {
            "urn:"@ + self.location@
        } else {
            self.location@
        }
    }

    /// The location as the URI that the host is given.
    pub fn uri(&self) -> (r: String)
        ensures
            r@ == self.uri_text(),
    {
        if self.explicit {
            concatenate("urn:", self.location.as_str())
        } else {
            self.location.clone()
        }
    }
}

/// The one selector that is ever registered: Java sources.
pub open spec fn java_selector() -> Seq<(Seq<char>, Seq<char>)> {
    seq![("java"@, "**/*.java"@)]
}

/// The registration of a server at `location` with `args`, for a request
/// that came with `options`.
pub open spec fn launch(
    location: Seq<char>,
    args: Seq<Seq<char>>,
    options: Option<Json>,
    explicit: bool,
) -> LaunchView {
    LaunchView { location, args, selector: java_selector(), options, explicit }
}

/// Where a bootstrap stands.
#[derive(Clone, Copy, Debug, PartialEq, Eq, Structural)]
pub enum Phase {
    /// No request has been handled yet.
    Idle,
    /// Waiting to learn what the working directory holds.
    Probing,
    /// Waiting for the download.
    Fetching,
    /// Waiting for the bytes of the payload.
    Loading,
    /// Waiting for the files to be written.
    Installing,
    /// Waiting for the location of the working directory.
    Locating,
    /// A server was registered.
    Done,
    /// The bootstrap was given up; no server was registered.
    Failed,
}

impl Phase {
    /// Whether the machine waits for the outcome of an action.
    pub open spec fn is_busy(self) -> bool {
        self == Phase::Probing || self == Phase::Fetching || self == Phase::Loading || self
            == Phase::Installing || self == Phase::Locating
    }

    /// Tells whether the machine waits for the outcome of an action.
    pub fn busy(self) -> (r: bool)
        ensures
            r == self.is_busy(),
    {
        match self {
            Phase::Idle | Phase::Done | Phase::Failed => false,
            _ => true,
        }
    }
}

/// What the machine is told.
#[derive(Debug)]
pub enum Event {
    /// The host sent a request.
    Request { method: String, options: Option<Json> },
    /// The working directory was looked at.
    Probed { target_exists: bool, payload_exists: bool },
    /// The archive was downloaded and stored under the payload's name.
    Fetched,
    /// The payload was read.
    Loaded { payload: Vec<u8> },
    /// The installation target was created and every step was carried out.
    Installed,
    /// The working directory's location is known.
    Located { base: String },
    /// The last action failed.
    Failed { failure: Failure },
}

/// What the machine asks for.
#[derive(Debug, PartialEq, Eq)]
pub enum Action {
    /// Find out whether the directory `target` and the file `payload`
    /// exist in the working directory.
    Probe { target: String, payload: String },
    /// Download `url` and store the whole body as the file `payload`.
    Fetch { url: String, payload: String },
    /// Read the file `payload`.
    Load { payload: String },
    /// Create the directory `target`, then carry out the steps in order,
    /// each path taken below `target`, and stop at the first that fails.
    Install { target: String, ops: Vec<FsOp> },
    /// Find out the working directory's location.
    Locate,
    /// Register the server with the host.
    Register { spec: ServerLaunchSpec },
    /// Write the failure to the host's log; nothing is registered.
    Report { failure: Failure },
    /// Do nothing.
    Ignore,
}

/// The mathematical value of an [`Action`].
pub enum ActionView {
    Probe { target: Seq<char>, payload: Seq<char> },
    Fetch { url: Seq<char>, payload: Seq<char> },
    Load { payload: Seq<char> },
    Install { target: Seq<char>, ops: Seq<FsOpView> },
    Locate,
    Register { spec: LaunchView },
    Report { failure: Failure },
    Ignore,
}

impl View for Action {
    type V = ActionView;

    open spec fn view(&self) -> ActionView {
        match self {
            Action::Probe { target, payload } => ActionView::Probe {
                target: target@,
                payload: payload@,
            },
            Action::Fetch { url, payload } => ActionView::Fetch { url: url@, payload: payload@ },
            Action::Load { payload } => ActionView::Load { payload: payload@ },
            Action::Install { target, ops } => ActionView::Install {
                target: target@,
                ops: op_views(ops@),
            },
            Action::Locate => ActionView::Locate,
            Action::Register { spec } => ActionView::Register { spec: spec@ },
            Action::Report { failure } => ActionView::Report { failure: *failure },
            Action::Ignore => ActionView::Ignore,
        }
    }
}

/// The mathematical value of a [`Bootstrap`].
pub struct StateView {
    /// Where the bootstrap stands.
    pub phase: Phase,
    /// The server arguments of the request that is being handled.
    pub args: Seq<Seq<char>>,
    /// The options of that request, while its server is not yet registered.
    pub options: Option<Json>,
}

/// The outcome of one step: the machine's new state and the action asked for.
pub struct Outcome {
    pub state: StateView,
    pub action: ActionView,
}

/// The outcome of an event that does not concern the machine as it stands.
pub open spec fn ignored(state: StateView) -> Outcome {
    Outcome { state, action: ActionView::Ignore }
}

/// The request to look for the installation target and the payload.
pub open spec fn probe() -> ActionView {
    ActionView::Probe { target: SERVER_ID@, payload: archive_name() }
}

/// The request to download the archive and store it as the payload.
pub open spec fn fetch() -> ActionView {
    ActionView::Fetch { url: archive_url(), payload: archive_name() }
}

/// The request to read the payload.
pub open spec fn load() -> ActionView {
    ActionView::Load { payload: archive_name() }
}

/// The request to create the installation target and to fill it.
pub open spec fn install(ops: Seq<FsOpView>) -> ActionView {
    ActionView::Install { target: SERVER_ID@, ops }
}

/// The outcome of an event that moves a bootstrap on to `phase`.
pub open spec fn moved(state: StateView, phase: Phase, action: ActionView) -> Outcome {
    Outcome { state: StateView { phase, ..state }, action }
}

/// The rules of the machine.
///
/// An `initialize` request is taken up unless a bootstrap is under way. If
/// the options name a server, it is registered at once. Otherwise the
/// working directory is probed: with the installation target there, only
/// the location is still asked for; with only the payload there, it is
/// read and unpacked; with neither, the archive is downloaded first. A
/// payload that cannot be unpacked, and any failure reported while the
/// machine waits, ends the bootstrap with a report and no registration.
///
/// The payload is decoded as a whole before anything is written, so a
/// payload that cannot be unpacked leaves no installation target behind.
/// A failure while the files are written does: nothing is cleaned up, and
/// the next bootstrap finds the target and takes the server for installed.
pub open spec fn transition(state: StateView, event: Event) -> Outcome {
    match event {
        Event::Request { method, options } => {
            if state.phase.is_busy() || method@ != "initialize"@ {
                ignored(state)
            } else {
                match resolved(options) {
                    ChoiceView::Explicit { path, args } => Outcome {
                        state: StateView { phase: Phase::Done, args, options: None },
                        action: ActionView::Register { spec: launch(path, args, options, true) },
                    },
                    ChoiceView::UseDefault { args } => Outcome {
                        state: StateView { phase: Phase::Probing, args, options },
                        action: probe(),
                    },
                }
            }
        },
        Event::Probed { target_exists, payload_exists } => {
            if state.phase != Phase::Probing {
                ignored(state)
            } else if target_exists {
                moved(state, Phase::Locating, ActionView::Locate)
            } else if payload_exists {
                moved(state, Phase::Loading, load())
            } else {
                moved(state, Phase::Fetching, fetch())
            }
        },
        Event::Fetched => {
            if state.phase != Phase::Fetching {
                ignored(state)
            } else {
                moved(state, Phase::Loading, load())
            }
        },
        Event::Loaded { payload } => {
            if state.phase != Phase::Loading {
                ignored(state)
            } else {
                match unpacked(payload@) {
                    Some(ops) => moved(state, Phase::Installing, install(ops)),
                    None => moved(
                        state,
                        Phase::Failed,
                        ActionView::Report { failure: Failure::Archive },
                    ),
                }
            }
        },
        Event::Installed => {
            if state.phase != Phase::Installing {
                ignored(state)
            } else {
                moved(state, Phase::Locating, ActionView::Locate)
            }
        },
        Event::Located { base } => {
            if state.phase != Phase::Locating {
                ignored(state)
            } else {
                Outcome {
                    state: StateView { phase: Phase::Done, args: state.args, options: None },
                    action: ActionView::Register {
                        spec: launch(
                            executable_location(base@),
                            state.args,
                            state.options,
                            false,
                        ),
                    },
                }
            }
        },
        Event::Failed { failure } => {
            if !state.phase.is_busy() {
                ignored(state)
            } else {
                moved(state, Phase::Failed, ActionView::Report { failure })
            }
        },
    }
}

/// How many downloads a run of events asks for, from a given state on.
pub open spec fn fetches(state: StateView, events: Seq<Event>) -> nat
    decreases events.len(),
{
    if events.len() == 0 {
        0
    } else {
        let next = transition(state, events[0]);
        let here: nat = if next.action is Fetch {
            1
        } else {
            0
        };
        here + fetches(next.state, events.drop_first())
    }
}

/// How many extractions a run of events asks for, from a given state on.
pub open spec fn installs(state: StateView, events: Seq<Event>) -> nat
    decreases events.len(),
{
    if events.len() == 0 {
        0
    } else {
        let next = transition(state, events[0]);
        let here: nat = if next.action is Install {
            1
        } else {
            0
        };
        here + installs(next.state, events.drop_first())
    }
}

/// How many registrations a run of events asks for, from a given state on.
pub open spec fn registrations(state: StateView, events: Seq<Event>) -> nat
    decreases events.len(),
{
    if events.len() == 0 {
        0
    } else {
        let next = transition(state, events[0]);
        let here: nat = if next.action is Register {
            1
        } else {
            0
        };
        here + registrations(next.state, events.drop_first())
    }
}

/// Whether a run of events holds no request of the host: such a run
/// belongs to one bootstrap.
pub open spec fn within_one_bootstrap(events: Seq<Event>) -> bool {
    forall|i: int| 0 <= i < events.len() ==> !(#[trigger] events[i] is Request)
}

/// Whether a download can still be asked for from `phase` on.
pub open spec fn may_fetch(phase: Phase) -> bool {
    phase == Phase::Probing
}

/// Whether an extraction can still be asked for from `phase` on.
pub open spec fn may_install(phase: Phase) -> bool {
    phase == Phase::Probing || phase == Phase::Fetching || phase == Phase::Loading
}

/// Whether a registration can still be asked for from `phase` on.
pub open spec fn may_register(phase: Phase) -> bool {
    phase.is_busy()
}

/// Within one bootstrap a download is asked for only while the working
/// directory is still to be probed, an extraction only until the payload
/// has been read, a registration only while the machine waits; and each
/// at most once.
pub proof fn work_is_bounded_by_phase(state: StateView, events: Seq<Event>)
    requires
        within_one_bootstrap(events),
    ensures
        fetches(state, events) <= 1,
        installs(state, events) <= 1,
        registrations(state, events) <= 1,
        !may_fetch(state.phase) ==> fetches(state, events) == 0,
        !may_install(state.phase) ==> installs(state, events) == 0,
        !may_register(state.phase) ==> registrations(state, events) == 0,
    decreases events.len(),
{
    if events.len() > 0 {
        let next = transition(state, events[0]);
        let rest = events.drop_first();
        assert(!(events[0] is Request));
        assert(within_one_bootstrap(rest)) by {
            assert forall|i: int| 0 <= i < rest.len() implies !(#[trigger] rest[i] is Request) by {
                assert(rest[i] == events[i + 1]);
            }
        }
        work_is_bounded_by_phase(next.state, rest);
    }
}

/// A whole bootstrap, from the host's request on, asks for at most one
/// download, one extraction and one registration.
pub proof fn one_bootstrap_does_each_work_once(state: StateView, request: Event, later: Seq<Event>)
    requires
        request is Request,
        within_one_bootstrap(later),
    ensures
        fetches(state, seq![request] + later) <= 1,
        installs(state, seq![request] + later) <= 1,
        registrations(state, seq![request] + later) <= 1,
{
    let events = seq![request] + later;
    let next = transition(state, request);
    assert(events[0] == request);
    assert(events.drop_first() =~= later);
    work_is_bounded_by_phase(next.state, later);
}

/// Where the options name a server, that server is registered at once,
/// with the path and the arguments of the options, and the bootstrap asks
/// for no download and no extraction, whatever is reported afterwards.
pub proof fn explicit_server_is_never_provisioned(
    state: StateView,
    method: String,
    options: Option<Json>,
    path: Seq<char>,
    later: Seq<Event>,
)
    requires
        !state.phase.is_busy(),
        method@ == "initialize"@,
        path_text(options) == Some(path),
        !is_blank(path),
        within_one_bootstrap(later),
    ensures
        ({
            let request = Event::Request { method, options };
            &&& transition(state, request) == (Outcome {
                state: StateView { phase: Phase::Done, args: server_args(options), options: None },
                action: ActionView::Register {
                    spec: launch(path, server_args(options), options, true),
                },
            })
            &&& fetches(state, seq![request] + later) == 0
            &&& installs(state, seq![request] + later) == 0
            &&& registrations(state, seq![request] + later) == 1
        }),
{
    let request = Event::Request { method, options };
    let events = seq![request] + later;
    assert(events[0] == request);
    assert(events.drop_first() =~= later);
    work_is_bounded_by_phase(transition(state, request).state, later);
}

/// Where the installation target is found in place, the bootstrap goes on
/// to locate the executable and asks for no download and no extraction,
/// whether or not a payload is stored and whatever is reported afterwards.
pub proof fn installed_server_is_not_provisioned_again(
    state: StateView,
    payload_exists: bool,
    later: Seq<Event>,
)
    requires
        state.phase == Phase::Probing,
        within_one_bootstrap(later),
    ensures
        ({
            let found = Event::Probed { target_exists: true, payload_exists };
            &&& transition(state, found) == moved(state, Phase::Locating, ActionView::Locate)
            &&& fetches(state, seq![found] + later) == 0
            &&& installs(state, seq![found] + later) == 0
        }),
{
    let found = Event::Probed { target_exists: true, payload_exists };
    let events = seq![found] + later;
    assert(events[0] == found);
    assert(events.drop_first() =~= later);
    work_is_bounded_by_phase(transition(state, found).state, later);
}

/// A failure that is reported while the machine waits ends the bootstrap:
/// it is written to the log and no server is registered afterwards.
pub proof fn failure_registers_nothing(state: StateView, failure: Failure, later: Seq<Event>)
    requires
        state.phase.is_busy(),
        within_one_bootstrap(later),
    ensures
        ({
            let failed = Event::Failed { failure };
            &&& transition(state, failed) == moved(
                state,
                Phase::Failed,
                ActionView::Report { failure },
            )
            &&& registrations(state, seq![failed] + later) == 0
        }),
{
    let failed = Event::Failed { failure };
    let events = seq![failed] + later;
    assert(events[0] == failed);
    assert(events.drop_first() =~= later);
    work_is_bounded_by_phase(transition(state, failed).state, later);
}

/// A server that is registered after provisioning is found below the
/// working directory, in the server's directory, at `bin/jdtls`, and gets
/// the arguments and the options of the request.
pub proof fn provisioned_server_is_registered_below_base(state: StateView, base: String)
    requires
        state.phase == Phase::Locating,
    ensures
        transition(state, Event::Located { base }).action == (ActionView::Register {
            spec: LaunchView {
                location: joined(base@, SERVER_ID@) + "/bin/jdtls"@,
                args: state.args,
                selector: java_selector(),
                options: state.options,
                explicit: false,
            },
        }),
        transition(state, Event::Located { base }).state.phase == Phase::Done,
{
}

/// The selector for Java sources.
pub fn document_selector() -> (r: Vec<DocumentFilter>)
    ensures
        filter_views(r@) == java_selector(),
{
    let mut r: Vec<DocumentFilter> = Vec::new();
    r.push(DocumentFilter { language: "java".to_owned(), pattern: "**/*.java".to_owned() });
    assert(filter_views(r@) =~= java_selector());
    r
}

/// A copy of a list of strings.
fn copy_strings(strings: &Vec<String>) -> (out: Vec<String>)
    ensures
        string_views(out@) == string_views(strings@),
{
    let mut out: Vec<String> = Vec::new();
    let mut i: usize = 0;
    while i < strings.len()
        invariant
            i <= strings.len(),
            out@.len() == i,
            forall|j: int| 0 <= j < i ==> out@[j]@ == strings@[j]@,
        decreases strings.len() - i,
    {
        out.push(strings[i].clone());
        i += 1;
    }
    assert(string_views(out@) =~= string_views(strings@));
    out
}

/// Tells whether `method` is the host's `initialize` request.
pub fn is_initialize(method: &String) -> (r: bool)
    ensures
        r == (method@ == "initialize"@),
{
    let wanted = "initialize".to_owned();
    *method == wanted
}

/// One bootstrap handler, made once for a session.
#[derive(Debug)]
pub struct Bootstrap {
    /// Where the bootstrap stands.
    pub phase: Phase,
    /// The server arguments of the request that is being handled.
    pub args: Vec<String>,
    /// The options of that request, while its server is not yet registered.
    pub options: Option<Json>,
}

impl View for Bootstrap {
    type V = StateView;

    open spec fn view(&self) -> StateView {
        StateView { phase: self.phase, args: string_views(self.args@), options: self.options }
    }
}

impl Default for Bootstrap {
    /// A handler that has not seen a request.
    fn default() -> (r: Bootstrap)
        ensures
            r@ == (StateView { phase: Phase::Idle, args: Seq::empty(), options: None }),
    {
        Bootstrap::new()
    }
}

impl Bootstrap {
    /// A handler that has not seen a request.
    pub fn new() -> (r: Bootstrap)
        ensures
            r@ == (StateView { phase: Phase::Idle, args: Seq::empty(), options: None }),
    {
        let args: Vec<String> = Vec::new();
        assert(string_views(args@) =~= Seq::empty());
        Bootstrap { phase: Phase::Idle, args, options: None }
    }

    /// Takes one event and answers with the action to perform, as
    /// [`transition`] lays down.
    pub fn step(&mut self, event: Event) -> (action: Action)
        ensures
            transition(old(self)@, event) == (Outcome { state: final(self)@, action: action@ }),
    {
        match event {
            Event::Request { method, options } => {
                if self.phase.busy() || !is_initialize(&method) {
                    return Action::Ignore;
                }
                let given = match &options {
                    Some(o) => Some(o),
                    None => None,
                };
                match resolve(given) {
                    ServerChoice::Explicit { path, args } => {
                        self.phase = Phase::Done;
                        self.args = copy_strings(&args);
                        self.options = None;
                        Action::Register {
                            spec: ServerLaunchSpec {
                                location: path,
                                args,
                                selector: document_selector(),
                                options,
                                explicit: true,
                            },
                        }
                    },
                    ServerChoice::UseDefault { args } => {
                        self.phase = Phase::Probing;
                        self.args = args;
                        self.options = options;
                        Action::Probe { target: target_name(), payload: payload_name() }
                    },
                }
            },
            Event::Probed { target_exists, payload_exists } => {
                if self.phase != Phase::Probing {
                    Action::Ignore
                } else if target_exists {
                    self.phase = Phase::Locating;
                    Action::Locate
                } else if payload_exists {
                    self.phase = Phase::Loading;
                    Action::Load { payload: payload_name() }
                } else {
                    self.phase = Phase::Fetching;
                    Action::Fetch { url: download_url(), payload: payload_name() }
                }
            },
            Event::Fetched => {
                if self.phase != Phase::Fetching {
                    Action::Ignore
                } else {
                    self.phase = Phase::Loading;
                    Action::Load { payload: payload_name() }
                }
            },
            Event::Loaded { payload } => {
                if self.phase != Phase::Loading {
                    Action::Ignore
                } else {
                    match unpack(payload.as_slice()) {
                        Ok(ops) => {
                            self.phase = Phase::Installing;
                            Action::Install { target: target_name(), ops }
                        },
                        Err(failure) => {
                            self.phase = Phase::Failed;
                            Action::Report { failure }
                        },
                    }
                }
            },
            Event::Installed => {
                if self.phase != Phase::Installing {
                    Action::Ignore
                } else {
                    self.phase = Phase::Locating;
                    Action::Locate
                }
            },
            Event::Located { base } => {
                if self.phase != Phase::Locating {
                    Action::Ignore
                } else {
                    self.phase = Phase::Done;
                    Action::Register {
                        spec: ServerLaunchSpec {
                            location: locate_executable(base.as_str()),
                            args: copy_strings(&self.args),
                            selector: document_selector(),
                            options: self.options.take(),
                            explicit: false,
                        },
                    }
                }
            },
            Event::Failed { failure } => {
                if !self.phase.busy() {
                    Action::Ignore
                } else {
                    self.phase = Phase::Failed;
                    Action::Report { failure }
                }
            },
        }
    }
}

} // verus!
