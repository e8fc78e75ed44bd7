//! The startup sequence of the service, as a linear state machine.
//!
//! The machine decides; the surrounding process acts. At every phase the
//! machine names one pending [`Action`]; the process carries it out (reads
//! the environment, opens a connection, binds the listener) and reports the
//! outcome back as an [`Event`]. Every failure is fatal: the machine moves
//! straight to [`Phase::Terminated`] with the matching [`StartupError`] and
//! no later event moves it anywhere else.

use vstd::prelude::*;

verus! {

/// The port the listener binds, on all interfaces.
pub const LISTEN_PORT: u16 = 8080;

/// Every way startup can fail. Each is fatal and carries its own
/// diagnostic; see [`spec_message`].
#[derive(Clone, Copy, PartialEq, Eq, Debug, Structural)]
pub enum StartupError {
    /// The relational connection string is absent from the environment.
    MissingRelationalUrl,
    /// The document connection string is absent from the environment.
    MissingDocumentUrl,
    /// The relational connection pool could not be established.
    RelationalConnectFailed,
    /// The document connection string could not be parsed.
    DocumentParseFailed,
    /// The document client could not be constructed.
    DocumentClientFailed,
    /// The document readiness probe got no answer.
    DocumentProbeFailed,
    /// The listening socket could not be bound.
    BindFailed,
}

/// The phases of the startup sequence, in the order they are reached.
/// Acquiring the document store takes three steps (parse the URL, build the
/// client, probe connectivity), so two intermediate phases sit between the
/// relational and the document milestone.
#[derive(Clone, Copy, PartialEq, Eq, Debug, Structural)]
pub enum Phase {
    Start,
    ConfigLoaded,
    RelationalConnected,
    DocumentParsed,
    DocumentClientReady,
    DocumentConnected,
    RoutesRegistered,
    Listening,
    Terminated(StartupError),
}

/// What the surrounding process reports back after carrying out the pending
/// action: the configuration values it read, or the outcome of one startup
/// step.
pub enum Event {
    ConfigRead { relational: Option<String>, document: Option<String> },
    RelationalConnect { connected: bool },
    DocumentParse { parsed: bool },
    DocumentClientBuild { built: bool },
    DocumentProbe { reachable: bool },
    RoutesBuilt,
    Bind { bound: bool },
}

/// What the surrounding process must do next.
#[derive(Clone, Copy, PartialEq, Eq, Debug, Structural)]
pub enum Action {
    /// Read the two connection strings from the environment.
    ReadConfig,
    /// Open the connection pool to the relational store.
    ConnectRelational,
    /// Parse the document connection string into client options.
    ParseDocumentUrl,
    /// Construct the document client.
    BuildDocumentClient,
    /// Probe the document store with a lightweight administrative call.
    ProbeDocument,
    /// Build the routing table and attach the two dependency handles.
    RegisterRoutes,
    /// Bind the listening socket on all interfaces at [`LISTEN_PORT`].
    BindListener,
    /// Accept and dispatch connections until terminated externally.
    Serve,
    /// Report the diagnostic and terminate the process.
    Abort(StartupError),
}

/// The transition relation of the startup sequence: linear, with every
/// failure going straight to `Terminated`. An event that does not answer
/// the phase's pending action leaves the phase unchanged; in particular a
/// terminated machine stays terminated.
pub open spec fn spec_step(phase: Phase, event: Event) -> Phase {
    match (phase, event) {
        (Phase::Start, Event::ConfigRead { relational, document }) => {
            if relational is None {
                Phase::Terminated(StartupError::MissingRelationalUrl)
            } else if document is None {
                Phase::Terminated(StartupError::MissingDocumentUrl)
            } else {
                Phase::ConfigLoaded
            }
        },
        (Phase::ConfigLoaded, Event::RelationalConnect { connected }) => {
            if connected {
                Phase::RelationalConnected
            } else {
                Phase::Terminated(StartupError::RelationalConnectFailed)
            }
        },
        (Phase::RelationalConnected, Event::DocumentParse { parsed }) => {
            if parsed {
                Phase::DocumentParsed
            } else {
                Phase::Terminated(StartupError::DocumentParseFailed)
            }
        },
        (Phase::DocumentParsed, Event::DocumentClientBuild { built }) => {
            if built {
                Phase::DocumentClientReady
            } else {
                Phase::Terminated(StartupError::DocumentClientFailed)
            }
        },
        (Phase::DocumentClientReady, Event::DocumentProbe { reachable }) => {
            if reachable {
                Phase::DocumentConnected
            } else {
                Phase::Terminated(StartupError::DocumentProbeFailed)
            }
        },
        (Phase::DocumentConnected, Event::RoutesBuilt) => Phase::RoutesRegistered,
        (Phase::RoutesRegistered, Event::Bind { bound }) => {
            if bound {
                Phase::Listening
            } else {
                Phase::Terminated(StartupError::BindFailed)
            }
        },
        _ => phase,
    }
}

/// The action pending at each phase.
pub open spec fn spec_action(phase: Phase) -> Action {
    match phase {
        Phase::Start => Action::ReadConfig,
        Phase::ConfigLoaded => Action::ConnectRelational,
        Phase::RelationalConnected => Action::ParseDocumentUrl,
        Phase::DocumentParsed => Action::BuildDocumentClient,
        Phase::DocumentClientReady => Action::ProbeDocument,
        Phase::DocumentConnected => Action::RegisterRoutes,
        Phase::RoutesRegistered => Action::BindListener,
        Phase::Listening => Action::Serve,
        Phase::Terminated(err) => Action::Abort(err),
    }
}

/// The phase after feeding a sequence of events, in order, to the machine.
pub open spec fn run(phase: Phase, events: Seq<Event>) -> Phase
    decreases events.len(),
{
    if events.len() == 0 {
        phase
    } else {
        run(spec_step(phase, events[0]), events.skip(1))
    }
}

/// The service bootstrapper: walks the startup sequence one reported
/// outcome at a time.
pub struct Bootstrap {
    pub phase: Phase,
}

impl Bootstrap {
    /// A bootstrapper that has not taken any step yet.
    pub fn new() -> (boot: Bootstrap)
        ensures
            boot.phase == Phase::Start,
    {
        Bootstrap { phase: Phase::Start }
    }

    /// The action the surrounding process must carry out next.
    pub fn pending_action(&self) -> (action: Action)
        ensures
            action == spec_action(self.phase),
    {
        match self.phase {
            Phase::Start => Action::ReadConfig,
            Phase::ConfigLoaded => Action::ConnectRelational,
            Phase::RelationalConnected => Action::ParseDocumentUrl,
            Phase::DocumentParsed => Action::BuildDocumentClient,
            Phase::DocumentClientReady => Action::ProbeDocument,
            Phase::DocumentConnected => Action::RegisterRoutes,
            Phase::RoutesRegistered => Action::BindListener,
            Phase::Listening => Action::Serve,
            Phase::Terminated(err) => Action::Abort(err),
        }
    }

    /// Take one step of the startup sequence and hand back the next pending
    /// action.
    pub fn advance(&mut self, event: Event) -> (action: Action)
        ensures
            final(self).phase == spec_step(old(self).phase, event),
            action == spec_action(final(self).phase),
    {
        let next: Phase = match (self.phase, event) {
            (Phase::Start, Event::ConfigRead { relational, document }) => {
                if relational.is_none() {
                    Phase::Terminated(StartupError::MissingRelationalUrl)
                } else if document.is_none() {
                    Phase::Terminated(StartupError::MissingDocumentUrl)
                } else {
                    Phase::ConfigLoaded
                }
            },
            (Phase::ConfigLoaded, Event::RelationalConnect { connected }) => {
                if connected {
                    Phase::RelationalConnected
                } else {
                    Phase::Terminated(StartupError::RelationalConnectFailed)
                }
            },
            (Phase::RelationalConnected, Event::DocumentParse { parsed }) => {
                if parsed {
                    Phase::DocumentParsed
                } else {
                    Phase::Terminated(StartupError::DocumentParseFailed)
                }
            },
            (Phase::DocumentParsed, Event::DocumentClientBuild { built }) => {
                if built {
                    Phase::DocumentClientReady
                } else {
                    Phase::Terminated(StartupError::DocumentClientFailed)
                }
            },
            (Phase::DocumentClientReady, Event::DocumentProbe { reachable }) => {
                if reachable {
                    Phase::DocumentConnected
                } else {
                    Phase::Terminated(StartupError::DocumentProbeFailed)
                }
            },
            (Phase::DocumentConnected, Event::RoutesBuilt) => Phase::RoutesRegistered,
            (Phase::RoutesRegistered, Event::Bind { bound }) => {
                if bound {
                    Phase::Listening
                } else {
                    Phase::Terminated(StartupError::BindFailed)
                }
            },
            (_, _) => self.phase,
        };
        self.phase = next;
        self.pending_action()
    }
}

/// The two mandatory connection strings, as read from the environment.
pub struct Config {
    pub relational_url: String,
    pub document_url: String,
}

impl Config {
    /// Builds the configuration from the two environment values. A missing
    /// value is rejected with the error naming it; the relational value is
    /// checked first.
    pub fn from_env_values(relational: Option<String>, document: Option<String>) -> (result:
        Result<Config, StartupError>)
        ensures
            match result {
                Ok(config) => {
                    &&& relational matches Some(r) && config.relational_url == r
                    &&& document matches Some(d) && config.document_url == d
                },
                Err(err) => {
                    &&& relational is None || document is None
                    &&& err == (if relational is None {
                        StartupError::MissingRelationalUrl
                    } else {
                        StartupError::MissingDocumentUrl
                    })
                },
            },
    {
        match (relational, document) {
            (Some(relational_url), Some(document_url)) => Ok(
                Config { relational_url, document_url },
            ),
            (None, _) => Err(StartupError::MissingRelationalUrl),
            (_, None) => Err(StartupError::MissingDocumentUrl),
        }
    }
}

/// The diagnostic reported for each fatal startup error. The two
/// configuration errors name the missing environment variable.
pub open spec fn spec_message(err: StartupError) -> Seq<char> {
    match err {
        StartupError::MissingRelationalUrl => "DATABASE_URL_MARIA must be set"@,
        StartupError::MissingDocumentUrl => "DATABASE_URL_MONGO must be set"@,
        StartupError::RelationalConnectFailed => "MariaDB connection failed"@,
        StartupError::DocumentParseFailed => "MongoDB parse failed"@,
        StartupError::DocumentClientFailed => "MongoDB client creation failed"@,
        StartupError::DocumentProbeFailed => "MongoDB connection failed (ping)"@,
        StartupError::BindFailed => "listener bind failed"@,
    }
}

impl StartupError {
    /// The human-readable diagnostic the process reports when it terminates
    /// on this error.
    pub fn message(&self) -> (message: String)
        ensures
            message@ == spec_message(*self),
    {
        match self {
            StartupError::MissingRelationalUrl => "DATABASE_URL_MARIA must be set".to_owned(),
            StartupError::MissingDocumentUrl => "DATABASE_URL_MONGO must be set".to_owned(),
            StartupError::RelationalConnectFailed => "MariaDB connection failed".to_owned(),
            StartupError::DocumentParseFailed => "MongoDB parse failed".to_owned(),
            StartupError::DocumentClientFailed => "MongoDB client creation failed".to_owned(),
            StartupError::DocumentProbeFailed => "MongoDB connection failed (ping)".to_owned(),
            StartupError::BindFailed => "listener bind failed".to_owned(),
        }
    }
}

/// The log line announcing a milestone phase: each store connected, and the
/// server listening.
pub open spec fn spec_milestone(phase: Phase) -> Option<Seq<char>> {
    match phase {
        Phase::RelationalConnected => Some("MariaDB Connected!"@),
        Phase::DocumentConnected => Some("MongoDB Connected!"@),
        Phase::Listening => Some("listening on port 8080"@),
        _ => None,
    }
}

impl Phase {
    /// The log line announcing this phase, for the milestone phases.
    pub fn milestone(&self) -> (line: Option<String>)
        ensures
            match line {
                Some(text) => spec_milestone(*self) matches Some(m) && text@ == m,
                None => spec_milestone(*self) is None,
            },
    {
        match self {
            Phase::RelationalConnected => Some("MariaDB Connected!".to_owned()),
            Phase::DocumentConnected => Some("MongoDB Connected!".to_owned()),
            Phase::Listening => Some("listening on port 8080".to_owned()),
            _ => None,
        }
    }
}

/// A terminated bootstrap stays terminated: no sequence of later events
/// changes it, so nothing after a fatal error is ever attempted.
pub proof fn lemma_terminated_absorbing(err: StartupError, events: Seq<Event>)
    ensures
        run(Phase::Terminated(err), events) == Phase::Terminated(err),
    decreases events.len(),
{
    if events.len() > 0 {
        assert(spec_step(Phase::Terminated(err), events[0]) == Phase::Terminated(err));
        lemma_terminated_absorbing(err, events.skip(1));
    }
}

/// Feeding one more event at the end of a run is one more step of the
/// machine.
pub proof fn lemma_run_snoc(phase: Phase, events: Seq<Event>, last: Event)
    ensures
        run(phase, events.push(last)) == spec_step(run(phase, events), last),
    decreases events.len(),
{
    if events.len() == 0 {
        assert(events.push(last)[0] == last);
        assert(events.push(last).skip(1) =~= Seq::<Event>::empty());
        assert(run(phase, events.push(last)) == run(
            spec_step(phase, last),
            Seq::<Event>::empty(),
        ));
        assert(run(spec_step(phase, last), Seq::<Event>::empty()) == spec_step(phase, last));
        assert(run(phase, events) == phase);
    } else {
        assert(events.push(last)[0] == events[0]);
        assert(events.push(last).skip(1) =~= events.skip(1).push(last));
        assert(run(phase, events.push(last)) == run(
            spec_step(phase, events[0]),
            events.skip(1).push(last),
        ));
        lemma_run_snoc(spec_step(phase, events[0]), events.skip(1), last);
        assert(run(phase, events) == run(spec_step(phase, events[0]), events.skip(1)));
    }
}

/// A missing connection string is fatal before any network step: the very
/// first event already terminates the bootstrap, the diagnostic of the
/// resulting error starts with the name of the missing variable (the
/// relational one is checked first), and no sequence of later events moves
/// the machine anywhere else.
pub proof fn lemma_missing_config_is_fatal(
    relational: Option<String>,
    document: Option<String>,
    rest: Seq<Event>,
)
    requires
        relational is None || document is None,
    ensures
        ({
            let phase = spec_step(Phase::Start, (Event::ConfigRead { relational, document }));
            let err = if relational is None {
                StartupError::MissingRelationalUrl
            } else {
                StartupError::MissingDocumentUrl
            };
            &&& phase == Phase::Terminated(err)
            &&& spec_action(phase) == Action::Abort(err)
            &&& relational is None ==> spec_message(err).take(18) == "DATABASE_URL_MARIA"@
            &&& relational is Some ==> spec_message(err).take(18) == "DATABASE_URL_MONGO"@
            &&& run(phase, rest) == phase
        }),
{
    reveal_strlit("DATABASE_URL_MARIA must be set");
    reveal_strlit("DATABASE_URL_MONGO must be set");
    reveal_strlit("DATABASE_URL_MARIA");
    reveal_strlit("DATABASE_URL_MONGO");
    if relational is None {
        assert(spec_message(StartupError::MissingRelationalUrl).take(18)
            =~= "DATABASE_URL_MARIA"@);
        lemma_terminated_absorbing(StartupError::MissingRelationalUrl, rest);
    } else {
        assert(spec_message(StartupError::MissingDocumentUrl).take(18)
            =~= "DATABASE_URL_MONGO"@);
        lemma_terminated_absorbing(StartupError::MissingDocumentUrl, rest);
    }
}

/// A relational connection failure is fatal before any document-store step:
/// the machine terminates at once and no sequence of later events moves it
/// anywhere else, so the document store is never contacted.
pub proof fn lemma_relational_failure_is_fatal(rest: Seq<Event>)
    ensures
        ({
            let phase = spec_step(Phase::ConfigLoaded, (Event::RelationalConnect {
                connected: false,
            }));
            &&& phase == Phase::Terminated(StartupError::RelationalConnectFailed)
            &&& run(phase, rest) == phase
        }),
{
    lemma_terminated_absorbing(StartupError::RelationalConnectFailed, rest);
}

/// Whether a phase lies at or past the relational milestone; the phases
/// whose pending actions touch the document store all do.
pub open spec fn past_relational(phase: Phase) -> bool {
    match phase {
        Phase::RelationalConnected => true,
        Phase::DocumentParsed => true,
        Phase::DocumentClientReady => true,
        Phase::DocumentConnected => true,
        Phase::RoutesRegistered => true,
        Phase::Listening => true,
        _ => false,
    }
}

/// The startup order is kept: a run from the start only reaches a phase
/// past the relational milestone if some event of it reported the
/// relational store successfully connected.
pub proof fn lemma_document_needs_relational(events: Seq<Event>)
    requires
        past_relational(run(Phase::Start, events)),
    ensures
        exists|i: int|
            0 <= i < events.len() && events[i] == (Event::RelationalConnect { connected: true }),
    decreases events.len(),
{
    if events.len() == 0 {
        assert(run(Phase::Start, events) == Phase::Start);
    } else {
        let prefix = events.take(events.len() - 1);
        let last = events.last();
        assert(events =~= prefix.push(last));
        lemma_run_snoc(Phase::Start, prefix, last);
        let before = run(Phase::Start, prefix);
        if before == Phase::ConfigLoaded && last == (Event::RelationalConnect {
            connected: true,
        }) {
            assert(events[events.len() - 1] == (Event::RelationalConnect { connected: true }));
        } else {
            assert(past_relational(before));
            lemma_document_needs_relational(prefix);
            let i = choose|i: int|
                0 <= i < prefix.len() && prefix[i] == (Event::RelationalConnect {
                    connected: true,
                });
            assert(events[i] == (Event::RelationalConnect { connected: true }));
        }
    }
}

/// The event sequence of a fully successful startup: both connection
/// strings present and every step succeeding.
pub open spec fn success_trace(relational: String, document: String) -> Seq<Event> {
    seq![
        (Event::ConfigRead { relational: Some(relational), document: Some(document) }),
        (Event::RelationalConnect { connected: true }),
        (Event::DocumentParse { parsed: true }),
        (Event::DocumentClientBuild { built: true }),
        (Event::DocumentProbe { reachable: true }),
        Event::RoutesBuilt,
        (Event::Bind { bound: true }),
    ]
}

/// When both connection strings are present and every startup step
/// succeeds, the bootstrap reaches the listening phase, whose pending
/// action is to serve.
pub proof fn lemma_successful_startup_listens(relational: String, document: String)
    ensures
        run(Phase::Start, success_trace(relational, document)) == Phase::Listening,
        spec_action(run(Phase::Start, success_trace(relational, document))) == Action::Serve,
{
    let events = success_trace(relational, document);
    let e0 = events.take(0);
    let e1 = events.take(1);
    let e2 = events.take(2);
    let e3 = events.take(3);
    let e4 = events.take(4);
    let e5 = events.take(5);
    let e6 = events.take(6);
    assert(e1 =~= e0.push(events[0]));
    assert(e2 =~= e1.push(events[1]));
    assert(e3 =~= e2.push(events[2]));
    assert(e4 =~= e3.push(events[3]));
    assert(e5 =~= e4.push(events[4]));
    assert(e6 =~= e5.push(events[5]));
    assert(events =~= e6.push(events[6]));
    lemma_run_snoc(Phase::Start, e0, events[0]);
    lemma_run_snoc(Phase::Start, e1, events[1]);
    lemma_run_snoc(Phase::Start, e2, events[2]);
    lemma_run_snoc(Phase::Start, e3, events[3]);
    lemma_run_snoc(Phase::Start, e4, events[4]);
    lemma_run_snoc(Phase::Start, e5, events[5]);
    lemma_run_snoc(Phase::Start, e6, events[6]);
    assert(run(Phase::Start, e0) == Phase::Start);
}

} // verus!
