//! The server: one configuration, and every decision of its start-up. The
//! listener itself, the TLS context and the accept loop belong to the caller,
//! who performs each action and reports what came of it.

use vstd::prelude::*;
use dav_server::fakels::FakeLs;
use dav_server::localfs::LocalFs;
use dav_server::DavHandler;
use crate::addr::BindAddr;
use crate::config::{ConfigView, DavConfig, RootStatus};
use crate::error::{ConfigError, ServerError};
use crate::gate::{credential_of, gate_decision, pair_text, presented_by, Credential, Gate, GateDecision};
use crate::route::{route, routed};
use crate::tls::{Certificate, Material};

verus! {

/// The protocol handler of the `dav_server` crate. Nothing of its inside is
/// known here: the server builds one and hands it to the caller.
#[verifier::external_type_specification]
#[verifier::external_body]
pub struct ExDavHandler(DavHandler);

/// The handler that the builder of the `dav_server` crate makes from a
/// prefix to strip, a local file system on `root` with its three flags
/// (files readable by all, names compared without case, the macOS
/// additions), and the lock system that only pretends to lock.
pub uninterp spec fn built_handler(
    prefix: Seq<char>,
    root: Seq<char>,
    public: bool,
    case_insensitive: bool,
    macos: bool,
) -> DavHandler;

/// Builds a handler with `DavHandler::builder` of the `dav_server` crate:
/// `strip_prefix`, `filesystem` on `LocalFs::new`, `locksystem` on
/// `FakeLs::new`, `build_handler`. The builder only stores what it is given,
/// so the contract claims that the handler is a function of the five
/// arguments, named [`built_handler`]; of what the handler then does with a
/// request nothing is claimed.
#[verifier::external_body]
fn build_handler(prefix: &str, root: &str, public: bool, case_insensitive: bool, macos: bool) -> (r: DavHandler)
    ensures
        r == built_handler(prefix@, root@, public, case_insensitive, macos),
{
    DavHandler::builder()
        .strip_prefix(prefix)
        .filesystem(LocalFs::new(root, public, case_insensitive, macos))
        .locksystem(FakeLs::new())
        .build_handler()
}

/// Where a server stands in its life. A server only ever moves down this
/// list; to run on another configuration, build another server.
#[derive(Debug, Clone, Copy, PartialEq, Eq, Structural)]
pub enum ServerPhase {
    /// Built; the configuration has not been checked.
    Unvalidated,
    /// The configuration met every rule.
    Validated,
    /// The listener is bound.
    Bound,
    /// Connections are being accepted.
    Serving,
    /// Cancelled, or failed for good.
    Stopped,
}

impl ServerPhase {
    /// The place of a phase in the order of a server's life.
    pub open spec fn rank(self) -> nat {
        match self {
            ServerPhase::Unvalidated => 0,
            ServerPhase::Validated => 1,
            ServerPhase::Bound => 2,
            ServerPhase::Serving => 3,
            ServerPhase::Stopped => 4,
        }
    }
}

/// What the caller reports to the server.
#[derive(Debug, Clone, Copy, PartialEq, Eq, Structural)]
pub enum ServerEvent {
    /// The server is asked to run; with what was found on disk at the root.
    Start(RootStatus),
    /// The listener is bound, behind a TLS context where TLS is on.
    Listening,
    /// The accept loop has started.
    Accepting,
    /// The TLS material could not be loaded.
    TlsRejected,
    /// The address could not be bound.
    BindFailed,
    /// Serving ended with an error.
    ServeFailed,
    /// The server's task was cancelled.
    Cancelled,
}

/// What a server listens with once its configuration is accepted.
pub struct LaunchView {
    pub bind: BindAddr,
    pub root: Seq<char>,
    pub prefix: Seq<char>,
    pub gate: Option<Credential>,
    pub tls: Option<Material>,
}

/// What a configuration makes a server listen with: its address, its root,
/// the effective prefix, the credential to hold requests to, and its TLS
/// material where TLS is switched on.
pub open spec fn launch_of(c: ConfigView) -> LaunchView
    recommends
        c.root is Some,
{
    LaunchView {
        bind: c.bind,
        root: c.root->0,
        prefix: c.effective_prefix(),
        gate: c.credential(),
        tls: c.active_tls(),
    }
}

/// The parameters of the listener, borrowed from the server's configuration.
#[derive(Debug, Clone, PartialEq)]
pub struct Launch<'a> {
    /// The address to bind.
    pub bind: BindAddr,
    /// The directory to serve.
    pub root: &'a str,
    /// The prefix that requests are routed under.
    pub prefix: &'a str,
    /// The credential gate to put in front of the handler.
    pub gate: Gate,
    /// The material to terminate TLS with; none for a plain listener.
    pub tls: Option<&'a Certificate>,
}

impl<'a> View for Launch<'a> {
    type V = LaunchView;

    open spec fn view(&self) -> LaunchView {
        LaunchView {
            bind: self.bind,
            root: self.root@,
            prefix: self.prefix@,
            gate: self.gate@,
            tls: match self.tls {
                Some(c) => Some(c@),
                None => None,
            },
        }
    }
}

/// What the server asks of the caller, as a mathematical value.
pub enum ActionView {
    Listen(LaunchView),
    Serve,
    Wait,
    Fail(ServerError),
    Halt,
    Ignore,
}

/// What the server asks of the caller in answer to an event.
#[derive(Debug, Clone, PartialEq)]
pub enum ServerAction<'a> {
    /// Build the TLS context where material is given, and bind the address.
    Listen(Launch<'a>),
    /// Start the accept loop on the bound listener.
    Serve,
    /// Keep serving until serving fails or the task is cancelled.
    Wait,
    /// Give up and return this error.
    Fail(ServerError),
    /// The server was cancelled: there is nothing more to do.
    Halt,
    /// The event has no meaning in this phase: nothing changes.
    Ignore,
}

impl<'a> View for ServerAction<'a> {
    type V = ActionView;

    open spec fn view(&self) -> ActionView {
        match self {
            ServerAction::Listen(launch) => ActionView::Listen(launch@),
            ServerAction::Serve => ActionView::Serve,
            ServerAction::Wait => ActionView::Wait,
            ServerAction::Fail(e) => ActionView::Fail(*e),
            ServerAction::Halt => ActionView::Halt,
            ServerAction::Ignore => ActionView::Ignore,
        }
    }
}

/// The server's answer to `event` in `phase`: the phase it moves to and what
/// it asks of the caller.
///
/// Nothing follows a stop. A cancellation stops the server wherever it
/// stands. A start checks the configuration: a broken rule stops the server
/// with that rule's error, and only a valid configuration lets the caller
/// listen. From there the server follows the caller's reports: bound, then
/// accepting; a TLS context that cannot be built, an address that cannot be
/// bound, or serving that fails stop it with the matching error. A report
/// that does not belong to the phase changes nothing.
pub open spec fn transition(c: ConfigView, phase: ServerPhase, event: ServerEvent) -> (ServerPhase, ActionView) {
    match (phase, event) {
        (ServerPhase::Stopped, _) => (ServerPhase::Stopped, ActionView::Ignore),
        (_, ServerEvent::Cancelled) => (ServerPhase::Stopped, ActionView::Halt),
        (ServerPhase::Unvalidated, ServerEvent::Start(root)) => match c.first_violation(root) {
            Some(e) => (ServerPhase::Stopped, ActionView::Fail(ServerError::Config(e))),
            None => (ServerPhase::Validated, ActionView::Listen(launch_of(c))),
        },
        (ServerPhase::Validated, ServerEvent::Listening) => (ServerPhase::Bound, ActionView::Serve),
        (ServerPhase::Validated, ServerEvent::TlsRejected) => if c.enable_tls {
            (ServerPhase::Stopped, ActionView::Fail(ServerError::TlsMaterial))
        } else {
            (ServerPhase::Validated, ActionView::Ignore)
        },
        (ServerPhase::Validated, ServerEvent::BindFailed) => (
            ServerPhase::Stopped,
            ActionView::Fail(ServerError::Bind),
        ),
        (ServerPhase::Bound, ServerEvent::Accepting) => (ServerPhase::Serving, ActionView::Wait),
        (ServerPhase::Bound, ServerEvent::ServeFailed) => (
            ServerPhase::Stopped,
            ActionView::Fail(ServerError::Serve),
        ),
        (ServerPhase::Serving, ServerEvent::ServeFailed) => (
            ServerPhase::Stopped,
            ActionView::Fail(ServerError::Serve),
        ),
        _ => (phase, ActionView::Ignore),
    }
}

/// What becomes of a request, as a mathematical value.
pub enum DispatchView {
    Unauthorized,
    Unmatched,
    Handle(Seq<char>),
}

/// What becomes of a request.
#[derive(Debug, Clone, Copy, PartialEq, Eq)]
pub enum Dispatch<'a> {
    /// It is turned away with status 401; the handler is not called.
    Unauthorized,
    /// Its credential was accepted and its path is not under the prefix: it
    /// does not belong to the handler.
    Unmatched,
    /// Its credential was accepted and it goes to the handler, which
    /// resolves this path.
    Handle(&'a str),
}

impl<'a> View for Dispatch<'a> {
    type V = DispatchView;

    open spec fn view(&self) -> DispatchView {
        match self {
            Dispatch::Unauthorized => DispatchView::Unauthorized,
            Dispatch::Unmatched => DispatchView::Unmatched,
            Dispatch::Handle(path) => DispatchView::Handle(path@),
        }
    }
}

/// What becomes of a request to `path` that presents `presented`, on a
/// server with the configuration `c`: the credential is looked at first,
/// and what is let through is routed under the effective prefix.
pub open spec fn dispatch_of(c: ConfigView, presented: Option<Credential>, path: Seq<char>) -> DispatchView {
    if gate_decision(c.credential(), presented) == GateDecision::Unauthorized {
        DispatchView::Unauthorized
    } else {
        match routed(c.effective_prefix(), path) {
            Some(rest) => DispatchView::Handle(rest),
            None => DispatchView::Unmatched,
        }
    }
}

/// The handler of a server with the configuration `c`: built to strip the
/// effective prefix and to serve the root, with every flag of the file
/// system off; none where no root is set.
pub open spec fn handler_of(c: ConfigView) -> Option<DavHandler> {
    match c.root {
        Some(root) => Some(built_handler(c.effective_prefix(), root, false, false, false)),
        None => None,
    }
}

/// A server: one configuration, held unchanged for the server's life.
#[derive(Debug)]
pub struct DavServer {
    config: DavConfig,
}

impl View for DavServer {
    type V = ConfigView;

    closed spec fn view(&self) -> ConfigView {
        self.config@
    }
}

impl DavServer {
    /// A server on the given configuration, which is not checked here.
    pub fn new(config: DavConfig) -> (r: DavServer)
        ensures
            r@ == config@,
    {
        DavServer { config }
    }

    /// A fresh configuration to set up a server with.
    pub fn builder() -> (r: DavConfig)
        ensures
            r@ == ConfigView::initial(),
    {
        DavConfig::new()
    }

    /// The configuration the server holds.
    pub fn config(&self) -> (r: &DavConfig)
        ensures
            r@ == self@,
    {
        &self.config
    }

    /// The listener's parameters, where the configuration meets every rule;
    /// the first broken rule's error where it does not.
    pub fn plan(&self, root: RootStatus) -> (r: Result<Launch<'_>, ConfigError>)
        ensures
            match r {
                Ok(launch) => self@.is_valid(root) && launch@ == launch_of(self@),
                Err(e) => self@.first_violation(root) == Some(e),
            },
    {
        match self.config.validate(root) {
            Err(e) => Err(e),
            Ok(()) => match self.config.root_dir() {
                Some(root_dir) => Ok(
                    Launch {
                        bind: self.config.bind_addr(),
                        root: root_dir,
                        prefix: self.config.path_prefix(),
                        gate: self.config.gate(),
                        tls: self.config.active_tls(),
                    },
                ),
                None => Err(ConfigError::RootNotSet),
            },
        }
    }

    /// One decision of the server's run: see [`transition`].
    pub fn step(&self, phase: ServerPhase, event: ServerEvent) -> (r: (ServerPhase, ServerAction<'_>))
        ensures
            (r.0, r.1@) == transition(self@, phase, event),
    {
        match (phase, event) {
            (ServerPhase::Stopped, _) => (ServerPhase::Stopped, ServerAction::Ignore),
            (_, ServerEvent::Cancelled) => (ServerPhase::Stopped, ServerAction::Halt),
            (ServerPhase::Unvalidated, ServerEvent::Start(root)) => match self.plan(root) {
                Ok(launch) => (ServerPhase::Validated, ServerAction::Listen(launch)),
                Err(e) => (ServerPhase::Stopped, ServerAction::Fail(ServerError::Config(e))),
            },
            (ServerPhase::Validated, ServerEvent::Listening) => (ServerPhase::Bound, ServerAction::Serve),
            (ServerPhase::Validated, ServerEvent::TlsRejected) => if self.config.tls_enabled() {
                (ServerPhase::Stopped, ServerAction::Fail(ServerError::TlsMaterial))
            } else {
                (ServerPhase::Validated, ServerAction::Ignore)
            },
            (ServerPhase::Validated, ServerEvent::BindFailed) => (
                ServerPhase::Stopped,
                ServerAction::Fail(ServerError::Bind),
            ),
            (ServerPhase::Bound, ServerEvent::Accepting) => (ServerPhase::Serving, ServerAction::Wait),
            (ServerPhase::Bound, ServerEvent::ServeFailed) => (
                ServerPhase::Stopped,
                ServerAction::Fail(ServerError::Serve),
            ),
            (ServerPhase::Serving, ServerEvent::ServeFailed) => (
                ServerPhase::Stopped,
                ServerAction::Fail(ServerError::Serve),
            ),
            _ => (phase, ServerAction::Ignore),
        }
    }

    /// The protocol handler for this server: it strips the effective prefix
    /// and resolves what is left under the root, with files private to the
    /// owner and names compared exactly. None where no root is set.
    pub fn handler(&self) -> (r: Option<DavHandler>)
        ensures
            r == handler_of(self@),
    {
        match self.config.root_dir() {
            Some(root) => Some(build_handler(self.config.path_prefix(), root, false, false, false)),
            None => None,
        }
    }

    /// The credential gate to put in front of the handler.
    pub fn gate(&self) -> (r: Gate)
        ensures
            r@ == self@.credential(),
    {
        self.config.gate()
    }

    /// Routes a request path: the path the handler resolves, where the
    /// request belongs to it.
    pub fn route<'a>(&self, path: &'a str) -> (r: Option<&'a str>)
        ensures
            r is Some <==> routed(self@.effective_prefix(), path@) is Some,
            r matches Some(rest) ==> routed(self@.effective_prefix(), path@) == Some(rest@),
    {
        route(self.config.path_prefix(), path)
    }

    /// Decides what becomes of a request to `path` whose `Authorization`
    /// header was decoded to `presented`; none stands for a missing or
    /// malformed header.
    pub fn decide<'a>(&self, presented: &Option<(String, String)>, path: &'a str) -> (r: Dispatch<'a>)
        ensures
            r@ == dispatch_of(self@, credential_of(pair_text(*presented)), path@),
    {
        match self.config.gate().check(presented) {
            GateDecision::Unauthorized => Dispatch::Unauthorized,
            GateDecision::Forward => match route(self.config.path_prefix(), path) {
                Some(rest) => Dispatch::Handle(rest),
                None => Dispatch::Unmatched,
            },
        }
    }

    /// Decides what becomes of a request by its path and its first
    /// `Authorization` header value; none where it has no such header.
    pub fn dispatch<'a>(&self, authorization: Option<&[u8]>, path: &'a str) -> (r: Dispatch<'a>)
        ensures
            r@ == dispatch_of(
                self@,
                presented_by(
                    match authorization {
                        Some(value) => Some(value@),
                        None => None,
                    },
                ),
                path@,
            ),
    {
        match self.config.gate().screen(authorization) {
            GateDecision::Unauthorized => Dispatch::Unauthorized,
            GateDecision::Forward => match route(self.config.path_prefix(), path) {
                Some(rest) => Dispatch::Handle(rest),
                None => Dispatch::Unmatched,
            },
        }
    }

    /// Decides on a request by its first `Authorization` header value.
    pub fn screen(&self, authorization: Option<&[u8]>) -> (r: GateDecision)
        ensures
            r == gate_decision(
                self@.credential(),
                presented_by(
                    match authorization {
                        Some(value) => Some(value@),
                        None => None,
                    },
                ),
            ),
    {
        self.config.gate().screen(authorization)
    }
}

/// Nothing follows a stop: a stopped server stays stopped and asks for
/// nothing, whatever is reported to it.
pub proof fn lemma_stopped_is_final(c: ConfigView, event: ServerEvent)
    ensures
        transition(c, ServerPhase::Stopped, event) == (ServerPhase::Stopped, ActionView::Ignore),
{
}

/// A server never goes back: the phase after an event is the same or a
/// later one. There is no way from any phase to one before it.
pub proof fn lemma_phases_only_advance(c: ConfigView, phase: ServerPhase, event: ServerEvent)
    ensures
        transition(c, phase, event).0.rank() >= phase.rank(),
{
}

/// The caller is asked to listen only in answer to a start, only on a
/// configuration that meets every rule, and then with what that
/// configuration says. A configuration with a defect stops the server with
/// the defect's error before anything is bound.
pub proof fn lemma_listen_only_when_valid(c: ConfigView, phase: ServerPhase, event: ServerEvent)
    ensures
        transition(c, phase, event).1 is Listen ==> {
            &&& phase == ServerPhase::Unvalidated
            &&& event is Start
            &&& c.is_valid(event->Start_0)
            &&& transition(c, phase, event).1 == ActionView::Listen(launch_of(c))
            &&& transition(c, phase, event).0 == ServerPhase::Validated
        },
        phase == ServerPhase::Unvalidated && event is Start && !c.is_valid(event->Start_0) ==> {
            &&& transition(c, phase, event).0 == ServerPhase::Stopped
            &&& c.first_violation(event->Start_0) is Some
            &&& transition(c, phase, event).1 == ActionView::Fail(
                ServerError::Config(c.first_violation(event->Start_0)->0),
            )
        },
{
}

/// The accept loop is started only on a bound listener of a validated
/// server, and a server only serves after it was bound.
pub proof fn lemma_serve_only_when_bound(c: ConfigView, phase: ServerPhase, event: ServerEvent)
    ensures
        transition(c, phase, event).1 is Serve ==> phase == ServerPhase::Validated && transition(
            c,
            phase,
            event,
        ).0 == ServerPhase::Bound,
        transition(c, phase, event).0 == ServerPhase::Bound ==> phase == ServerPhase::Validated
            || phase == ServerPhase::Bound,
        transition(c, phase, event).0 == ServerPhase::Serving ==> phase == ServerPhase::Bound || phase
            == ServerPhase::Serving,
{
}

/// Every failure and every cancellation ends in the stopped phase.
pub proof fn lemma_failure_stops(c: ConfigView, phase: ServerPhase, event: ServerEvent)
    ensures
        transition(c, phase, event).1 is Fail || transition(c, phase, event).1 is Halt ==> transition(
            c,
            phase,
            event,
        ).0 == ServerPhase::Stopped,
        event == ServerEvent::Cancelled ==> transition(c, phase, event).0 == ServerPhase::Stopped,
{
}

/// The handler is reached only with the configured credential: a request
/// that does not present it is answered with 401 whatever its path, and with
/// no credential configured every request under the prefix reaches the
/// handler.
pub proof fn lemma_handler_behind_gate(c: ConfigView, presented: Option<Credential>, path: Seq<char>)
    ensures
        dispatch_of(c, presented, path) is Handle ==> gate_decision(c.credential(), presented)
            == GateDecision::Forward,
        c.credential() is Some && presented != c.credential() ==> dispatch_of(c, presented, path)
            == DispatchView::Unauthorized,
        c.credential() is None ==> (dispatch_of(c, presented, path) is Handle <==> routed(
            c.effective_prefix(),
            path,
        ) is Some),
        dispatch_of(c, presented, path) is Handle ==> Some(dispatch_of(c, presented, path)->Handle_0)
            == routed(c.effective_prefix(), path),
{
}

/// What a server listens with: TLS only where it is switched on, whatever
/// material was supplied; a credential only where user and password are
/// both set; the prefix `/` where none is configured.
pub proof fn lemma_launch_follows_configuration(c: ConfigView)
    ensures
        !c.enable_tls ==> launch_of(c).tls is None,
        c.enable_tls ==> launch_of(c).tls == c.tls,
        launch_of(c).gate is Some <==> c.user is Some && c.password is Some,
        c.http_path is None ==> launch_of(c).prefix == seq!['/'],
        c.http_path is Some ==> launch_of(c).prefix == c.http_path->0,
        c.prefix_ok() ==> crate::config::well_formed_prefix(launch_of(c).prefix),
{
}

/// A configuration without a prefix stands for the same server as one with
/// the prefix `/`: the same listener, the same handler, the same answer to
/// every event and the same fate of every request.
pub proof fn lemma_no_prefix_is_root_prefix(
    c: ConfigView,
    phase: ServerPhase,
    event: ServerEvent,
    presented: Option<Credential>,
    path: Seq<char>,
)
    requires
        c.http_path is None,
    ensures
        c.with_http_path(seq!['/']).effective_prefix() == c.effective_prefix(),
        launch_of(c.with_http_path(seq!['/'])) == launch_of(c),
        handler_of(c.with_http_path(seq!['/'])) == handler_of(c),
        transition(c.with_http_path(seq!['/']), phase, event) == transition(c, phase, event),
        dispatch_of(c.with_http_path(seq!['/']), presented, path) == dispatch_of(c, presented, path),
{
    let d = c.with_http_path(seq!['/']);
    assert(seq!['/'].first() == '/' && seq!['/'].last() == '/');
    assert(d.prefix_ok() && c.prefix_ok());
}

/// The handler is built on what the listener is launched with: the root
/// and the effective prefix of the configuration.
pub proof fn lemma_handler_follows_launch(c: ConfigView)
    requires
        c.root is Some,
    ensures
        handler_of(c) == Some(built_handler(launch_of(c).prefix, launch_of(c).root, false, false, false)),
{
}

/// The configuration is checked once: a start is answered only by a server
/// that was never started, and changes nothing in any later phase.
pub proof fn lemma_validated_once(c: ConfigView, phase: ServerPhase, root: RootStatus)
    requires
        phase != ServerPhase::Unvalidated,
    ensures
        transition(c, phase, ServerEvent::Start(root)) == (phase, ActionView::Ignore),
{
}

/// TLS material that cannot be loaded is fatal: the server stops with the
/// error of the material before it is bound, and with
/// [`lemma_stopped_is_final`] it never accepts a connection.
pub proof fn lemma_rejected_material_is_fatal(c: ConfigView)
    requires
        c.enable_tls,
    ensures
        transition(c, ServerPhase::Validated, ServerEvent::TlsRejected) == (
            ServerPhase::Stopped,
            ActionView::Fail(ServerError::TlsMaterial),
        ),
{
}

} // verus!
