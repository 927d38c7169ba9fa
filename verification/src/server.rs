//! The order in which a server comes up, and how its endpoint is tuned.
//!
//! Joining the cluster, binding a socket and telling an observer are outside
//! work. What is decided here is what to do next: [`RPCJobServer::run`] takes
//! what has just happened and answers with the next piece of outside work.

use std::time::Duration;
use vstd::prelude::*;

verus! {

/// Where and how the server listens. Every field is optional; one that is not
/// set leaves the transport's own default in force.
#[derive(Debug, Clone, PartialEq, Eq)]
pub struct RPCServerConfig {
    pub rpc_host: Option<String>,
    pub rpc_port: Option<u16>,
    pub rpc_concurrency_limit_per_connection: Option<usize>,
    pub rpc_timeout: Option<Duration>,
    pub rpc_initial_stream_window_size: Option<u32>,
    pub rpc_initial_connection_window_size: Option<u32>,
    pub rpc_max_concurrent_streams: Option<u32>,
    pub rpc_keep_alive_interval: Option<Duration>,
    pub rpc_keep_alive_timeout: Option<Duration>,
    pub tcp_keep_alive: Option<Duration>,
    pub tcp_nodelay: Option<bool>,
}

/// One setting of the transport that differs from the transport's default.
#[derive(Debug, Clone, Copy, PartialEq, Eq)]
pub enum Tuning {
    ConcurrencyLimitPerConnection(usize),
    Timeout(Duration),
    InitialStreamWindowSize(u32),
    InitialConnectionWindowSize(u32),
    MaxConcurrentStreams(u32),
    KeepAliveInterval(Duration),
    KeepAliveTimeout(Duration),
}

/// The socket to listen on.
#[derive(Debug, Clone, PartialEq, Eq)]
pub struct Endpoint {
    pub host: String,
    /// Zero asks the system for a free port.
    pub port: u16,
    pub nodelay: bool,
    pub keepalive: Option<Duration>,
}

/// Mathematical value of an [`Endpoint`].
pub struct EndpointView {
    pub host: Seq<char>,
    pub port: u16,
    pub nodelay: bool,
    pub keepalive: Option<Duration>,
}

impl View for Endpoint {
    type V = EndpointView;

    open spec fn view(&self) -> EndpointView {
        EndpointView {
            host: self.host@,
            port: self.port,
            nodelay: self.nodelay,
            keepalive: self.keepalive,
        }
    }
}

/// A setting as a list: of one where it is asked for, of none where not.
pub open spec fn asked(setting: Option<Tuning>) -> Seq<Tuning> {
    match setting {
        Some(tuning) => seq![tuning],
        None => Seq::empty(),
    }
}

/// The settings that a configuration asks for, in the order in which they
/// are applied: one for each tuning field that is set, and no other.
pub open spec fn tuning_of(config: RPCServerConfig) -> Seq<Tuning> {
    asked(
        match config.rpc_concurrency_limit_per_connection {
            Some(limit) => Some(Tuning::ConcurrencyLimitPerConnection(limit)),
            None => None,
        },
    ) + asked(
        match config.rpc_timeout {
            Some(dur) => Some(Tuning::Timeout(dur)),
            None => None,
        },
    ) + asked(
        match config.rpc_initial_stream_window_size {
            Some(size) => Some(Tuning::InitialStreamWindowSize(size)),
            None => None,
        },
    ) + asked(
        match config.rpc_initial_connection_window_size {
            Some(size) => Some(Tuning::InitialConnectionWindowSize(size)),
            None => None,
        },
    ) + asked(
        match config.rpc_max_concurrent_streams {
            Some(size) => Some(Tuning::MaxConcurrentStreams(size)),
            None => None,
        },
    ) + asked(
        match config.rpc_keep_alive_interval {
            Some(dur) => Some(Tuning::KeepAliveInterval(dur)),
            None => None,
        },
    ) + asked(
        match config.rpc_keep_alive_timeout {
            Some(dur) => Some(Tuning::KeepAliveTimeout(dur)),
            None => None,
        },
    )
}

/// Appends a setting where one is asked for.
fn note(settings: Vec<Tuning>, setting: Option<Tuning>) -> (noted: Vec<Tuning>)
    ensures
        noted@ == settings@ + asked(setting),
{
    let mut noted = settings;
    if let Some(tuning) = setting {
        noted.push(tuning);
    }
    assert(noted@ =~= settings@ + asked(setting));
    noted
}

/// The socket that a configuration asks for: every interface where no host
/// is set, a port chosen by the system where none is set, and no delay on
/// the connections unless the configuration says otherwise.
pub open spec fn endpoint_of(config: RPCServerConfig) -> EndpointView {
    EndpointView {
        host: match config.rpc_host {
            Some(host) => host@,
            None => "0.0.0.0"@,
        },
        port: match config.rpc_port {
            Some(port) => port,
            None => 0,
        },
        nodelay: match config.tcp_nodelay {
            Some(nodelay) => nodelay,
            None => true,
        },
        keepalive: config.tcp_keep_alive,
    }
}

impl RPCServerConfig {
    /// The settings to apply to the transport, in order.
    pub fn tuning(&self) -> (settings: Vec<Tuning>)
        ensures
            settings@ == tuning_of(*self),
    {
        let limit = match self.rpc_concurrency_limit_per_connection {
            Some(limit) => Some(Tuning::ConcurrencyLimitPerConnection(limit)),
            None => None,
        };
        let timeout = match self.rpc_timeout {
            Some(dur) => Some(Tuning::Timeout(dur)),
            None => None,
        };
        let stream_window = match self.rpc_initial_stream_window_size {
            Some(size) => Some(Tuning::InitialStreamWindowSize(size)),
            None => None,
        };
        let connection_window = match self.rpc_initial_connection_window_size {
            Some(size) => Some(Tuning::InitialConnectionWindowSize(size)),
            None => None,
        };
        let streams = match self.rpc_max_concurrent_streams {
            Some(size) => Some(Tuning::MaxConcurrentStreams(size)),
            None => None,
        };
        let interval = match self.rpc_keep_alive_interval {
            Some(dur) => Some(Tuning::KeepAliveInterval(dur)),
            None => None,
        };
        let patience = match self.rpc_keep_alive_timeout {
            Some(dur) => Some(Tuning::KeepAliveTimeout(dur)),
            None => None,
        };
        let settings = note(Vec::new(), limit);
        assert(settings@ =~= asked(limit));
        let settings = note(settings, timeout);
        let settings = note(settings, stream_window);
        let settings = note(settings, connection_window);
        let settings = note(settings, streams);
        let settings = note(settings, interval);
        let settings = note(settings, patience);
        settings
    }

    /// The socket to listen on.
    pub fn endpoint(&self) -> (endpoint: Endpoint)
        ensures
            endpoint@ == endpoint_of(*self),
    {
        let host = match &self.rpc_host {
            Some(host) => host.clone(),
            None => "0.0.0.0".to_owned(),
        };
        let port = match self.rpc_port {
            Some(port) => port,
            None => 0,
        };
        let nodelay = match self.tcp_nodelay {
            Some(nodelay) => nodelay,
            None => true,
        };
        Endpoint { host, port, nodelay, keepalive: self.tcp_keep_alive }
    }
}

/// How far a server has come. A server only ever moves forward through
/// these, and `Failed` is where it ends when outside work fails.
#[derive(Debug, Clone, Copy, PartialEq, Eq, Structural)]
pub enum ServerState {
    /// Nothing has been asked for yet.
    Created,
    /// Joining the cluster.
    MembershipJoining,
    /// The cluster is joined on an address of its own, and the observer is
    /// being told of it.
    MembershipReady,
    /// Bringing up the public endpoint: `bound` is false while the socket is
    /// being bound, true while the observer is being told of the address.
    Binding { bound: bool },
    /// Accepting connections.
    Serving,
    /// Startup was given up, or the listener failed.
    Failed,
}

/// What has just happened outside. `A` is the type of a network address.
#[derive(Debug, Clone, PartialEq, Eq)]
pub enum ServerEvent<A> {
    /// The host process wants the server up.
    Start,
    /// The cluster is joined, on the given address if it bound one.
    Joined(Option<A>),
    /// The observer has taken the last announcement.
    Announced,
    /// The public endpoint is bound, at the given address.
    Bound(A),
    /// One connection failed.
    ConnectionFailed,
    /// The outside work last asked for failed, or the listener did.
    Failed,
}

/// The outside work to do next.
#[derive(Debug, Clone, PartialEq, Eq)]
pub enum ServerAction<A> {
    /// Nothing: the event changes nothing.
    Nothing,
    /// Join the cluster as the given server.
    JoinCluster { server_id: u64 },
    /// Tell the observer where the given server joined the cluster.
    AnnounceMembership { server_id: u64, addr: A },
    /// Bind the public endpoint, with the given settings applied in order.
    Bind { endpoint: Endpoint, tuning: Vec<Tuning> },
    /// Tell the observer where the given server takes requests.
    AnnounceRpc { server_id: u64, addr: A },
    /// Accept connections until the process ends.
    Serve,
    /// Give up.
    Abort,
}

/// Mathematical value of a [`ServerAction`].
pub enum ServerActionView<A> {
    Nothing,
    JoinCluster { server_id: u64 },
    AnnounceMembership { server_id: u64, addr: A },
    Bind { endpoint: EndpointView, tuning: Seq<Tuning> },
    AnnounceRpc { server_id: u64, addr: A },
    Serve,
    Abort,
}

impl<A> View for ServerAction<A> {
    type V = ServerActionView<A>;

    open spec fn view(&self) -> ServerActionView<A> {
        match *self {
            ServerAction::Nothing => ServerActionView::Nothing,
            ServerAction::JoinCluster { server_id } => ServerActionView::JoinCluster { server_id },
            ServerAction::AnnounceMembership { server_id, addr } => ServerActionView::AnnounceMembership {
                server_id,
                addr,
            },
            ServerAction::Bind { endpoint, tuning } => ServerActionView::Bind {
                endpoint: endpoint@,
                tuning: tuning@,
            },
            ServerAction::AnnounceRpc { server_id, addr } => ServerActionView::AnnounceRpc {
                server_id,
                addr,
            },
            ServerAction::Serve => ServerActionView::Serve,
            ServerAction::Abort => ServerActionView::Abort,
        }
    }
}

/// The request to bind the endpoint that a configuration describes.
pub open spec fn bind_of<A>(config: RPCServerConfig) -> ServerActionView<A> {
    ServerActionView::Bind { endpoint: endpoint_of(config), tuning: tuning_of(config) }
}

/// Where a server stands after an event, and what it asks for.
///
/// The cluster is joined first. Where that bound an address, the observer is
/// told of it before anything else happens. Then the public endpoint is
/// bound, the observer is told of its address, and only then are connections
/// accepted. A failure before that ends the startup; while serving, the
/// failure of one connection changes nothing, and that of the listener ends
/// the service. An event that the state does not wait for changes nothing.
pub open spec fn step<A>(
    server_id: u64,
    config: RPCServerConfig,
    state: ServerState,
    event: ServerEvent<A>,
) -> (ServerState, ServerActionView<A>) {
    match (state, event) {
        (ServerState::Failed, _) => (state, ServerActionView::Nothing),
        (ServerState::Serving, ServerEvent::ConnectionFailed) => (state, ServerActionView::Nothing),
        (_, ServerEvent::Failed) => (ServerState::Failed, ServerActionView::Abort),
        (ServerState::Created, ServerEvent::Start) => (
            ServerState::MembershipJoining,
            ServerActionView::JoinCluster { server_id },
        ),
        (ServerState::MembershipJoining, ServerEvent::Joined(Some(addr))) => (
            ServerState::MembershipReady,
            ServerActionView::AnnounceMembership { server_id, addr },
        ),
        (ServerState::MembershipJoining, ServerEvent::Joined(None)) => (
            ServerState::Binding { bound: false },
            bind_of(config),
        ),
        (ServerState::MembershipReady, ServerEvent::Announced) => (
            ServerState::Binding { bound: false },
            bind_of(config),
        ),
        (ServerState::Binding { bound: false }, ServerEvent::Bound(addr)) => (
            ServerState::Binding { bound: true },
            ServerActionView::AnnounceRpc { server_id, addr },
        ),
        (ServerState::Binding { bound: true }, ServerEvent::Announced) => (
            ServerState::Serving,
            ServerActionView::Serve,
        ),
        _ => (state, ServerActionView::Nothing),
    }
}

/// The place of a state in the order in which a server passes through them.
pub open spec fn rank(state: ServerState) -> nat {
    match state {
        ServerState::Created => 0,
        ServerState::MembershipJoining => 1,
        ServerState::MembershipReady => 2,
        ServerState::Binding { bound: false } => 3,
        ServerState::Binding { bound: true } => 4,
        ServerState::Serving => 5,
        ServerState::Failed => 6,
    }
}

/// `std::io::Error` of the standard library: what an observer refuses with.
/// It is handed on as it came, and nothing is read from it.
#[verifier::external_type_specification]
#[verifier::external_body]
pub struct ExIoError(std::io::Error);

/// One thing that an observer is told.
pub enum Notice<A> {
    /// Where the given server joined the cluster.
    ServerStart { server_id: u64, addr: A },
    /// Where the given server takes requests.
    RpcStart { server_id: u64, addr: A },
}

impl<A> Notice<A> {
    /// The server that the notice is about.
    pub open spec fn server(self) -> u64 {
        match self {
            Notice::ServerStart { server_id, .. } => server_id,
            Notice::RpcStart { server_id, .. } => server_id,
        }
    }
}

/// The observer of a server's startup. It is told each address as soon as
/// the server has it, and may refuse, which ends the startup. `A` is the
/// type of a network address.
pub trait ServiceStartListener<A> {
    /// What the observer has been told so far, in the order in which it
    /// was told, whether it agreed or refused. This is a record for proofs:
    /// nothing asks for it when the program runs.
    spec fn heard(&self) -> Seq<Notice<A>>;

    /// The server takes requests at `addr`.
    fn on_rpc_start(&mut self, server_id: u64, addr: A) -> (told: std::io::Result<()>)
        ensures
            final(self).heard() == old(self).heard().push(Notice::RpcStart { server_id, addr }),
    ;

    /// The server has joined the cluster at `addr`.
    fn on_server_start(&mut self, server_id: u64, addr: A) -> (told: std::io::Result<()>)
        ensures
            final(self).heard() == old(self).heard().push(Notice::ServerStart { server_id, addr }),
    ;
}

/// Whether the action is to tell the observer something.
pub open spec fn announces<A>(action: ServerActionView<A>) -> bool {
    action is AnnounceMembership || action is AnnounceRpc
}

/// What the observer is told on the action: one thing where the action is
/// to tell it something, and nothing on any other.
pub open spec fn notices<A>(action: ServerActionView<A>) -> Seq<Notice<A>> {
    match action {
        ServerActionView::AnnounceMembership { server_id, addr } => seq![
            Notice::ServerStart { server_id, addr },
        ],
        ServerActionView::AnnounceRpc { server_id, addr } => seq![
            Notice::RpcStart { server_id, addr },
        ],
        _ => Seq::empty(),
    }
}

/// What one call of [`RPCJobServer::run`] makes of a server, and what the
/// observer is told in it. Where the event calls for an announcement, the
/// observer is told, and the server goes on where the observer agreed and
/// has failed where it refused. Where it calls for none, the observer is
/// told nothing.
pub open spec fn run_step<A>(
    server_id: u64,
    config: RPCServerConfig,
    state: ServerState,
    event: ServerEvent<A>,
    agreed: bool,
) -> (ServerState, Seq<Notice<A>>) {
    let first = step(server_id, config, state, event);
    if !announces(first.1) {
        (first.0, Seq::empty())
    } else if agreed {
        (step(server_id, config, first.0, ServerEvent::<A>::Announced).0, notices(first.1))
    } else {
        (ServerState::Failed, notices(first.1))
    }
}

/// Where a new server stands after the given calls of
/// [`RPCJobServer::run`], each an event and whether the observer agreed,
/// and what the observer has been told in them.
pub open spec fn run_over<A>(
    server_id: u64,
    config: RPCServerConfig,
    calls: Seq<(ServerEvent<A>, bool)>,
) -> (ServerState, Seq<Notice<A>>)
    decreases calls.len(),
{
    if calls.len() == 0 {
        (ServerState::Created, Seq::empty())
    } else {
        let before = run_over(server_id, config, calls.drop_last());
        let last = run_step(server_id, config, before.0, calls.last().0, calls.last().1);
        (last.0, before.1 + last.1)
    }
}

/// Whether the notices are what an observer may be told in the life of one
/// server: at most where it joined the cluster and then where it takes
/// requests, each once at most, in that order, each about that server.
pub open spec fn in_order<A>(server_id: u64, told: Seq<Notice<A>>) -> bool {
    if told.len() == 0 {
        true
    } else if told.len() == 1 {
        told[0].server() == server_id
    } else {
        &&& told.len() == 2
        &&& told[0] is ServerStart
        &&& told[1] is RpcStart
        &&& told[0].server() == server_id
        &&& told[1].server() == server_id
    }
}

/// What the observer has been told, given how far the server has come.
pub open spec fn told_so_far<A>(server_id: u64, state: ServerState, told: Seq<Notice<A>>) -> bool {
    &&& in_order(server_id, told)
    &&& match state {
        ServerState::Created => told.len() == 0,
        ServerState::MembershipJoining => told.len() == 0,
        ServerState::MembershipReady => false,
        ServerState::Binding { bound } => !bound && (told.len() == 0 || (told.len() == 1
            && told[0] is ServerStart)),
        ServerState::Serving => told.len() > 0 && told.last() is RpcStart,
        ServerState::Failed => true,
    }
}

/// Whatever happens and whatever the observer answers, it is told at most
/// two things in the life of a server: where the server joined the cluster,
/// and where it takes requests; each once at most, in that order, and each
/// about that server. It is told nothing before the cluster is joined, where
/// the server takes requests only once the endpoint is bound, and a server
/// that serves has told it so.
pub proof fn lemma_announcements_in_order<A>(
    server_id: u64,
    config: RPCServerConfig,
    calls: Seq<(ServerEvent<A>, bool)>,
)
    ensures
        told_so_far(
            server_id,
            run_over(server_id, config, calls).0,
            run_over(server_id, config, calls).1,
        ),
        in_order(server_id, run_over(server_id, config, calls).1),
    decreases calls.len(),
{
    if calls.len() > 0 {
        lemma_announcements_in_order(server_id, config, calls.drop_last());
        let before = run_over(server_id, config, calls.drop_last());
        let last = run_step(server_id, config, before.0, calls.last().0, calls.last().1);
        let after = run_over(server_id, config, calls);
        assert(after.1 =~= before.1 + last.1);
        if last.1.len() == 0 {
            assert(after.1 =~= before.1);
        } else {
            assert(last.1.len() == 1);
            assert(after.1 =~= before.1.push(last.1[0]));
        }
    }
}

/// A server on its way up.
pub struct RPCJobServer {
    rpc_config: RPCServerConfig,
    server_id: u64,
    state: ServerState,
}

impl RPCJobServer {
    /// The configuration the server was made with.
    pub closed spec fn config(&self) -> RPCServerConfig {
        self.rpc_config
    }

    /// The identifier the server was made with.
    pub closed spec fn id(&self) -> u64 {
        self.server_id
    }

    /// How far the server has come.
    pub closed spec fn state(&self) -> ServerState {
        self.state
    }

    /// A server that has not been asked for anything yet.
    pub fn new(rpc_config: RPCServerConfig, server_id: u64) -> (server: RPCJobServer)
        ensures
            server.config() == rpc_config,
            server.id() == server_id,
            server.state() == ServerState::Created,
    {
        RPCJobServer { rpc_config, server_id, state: ServerState::Created }
    }

    /// How far the server has come.
    pub fn current(&self) -> (state: ServerState)
        ensures
            state == self.state(),
    {
        self.state
    }

    /// Takes what has just happened and answers with what to do next.
    pub fn advance<A>(&mut self, event: ServerEvent<A>) -> (action: ServerAction<A>)
        ensures
            final(self).config() == old(self).config(),
            final(self).id() == old(self).id(),
            (final(self).state(), action@) == step(
                old(self).id(),
                old(self).config(),
                old(self).state(),
                event,
            ),
    {
        let state = self.state;
        match state {
            ServerState::Failed => ServerAction::Nothing,
            _ => match event {
                ServerEvent::ConnectionFailed => ServerAction::Nothing,
                ServerEvent::Failed => {
                    self.state = ServerState::Failed;
                    ServerAction::Abort
                },
                ServerEvent::Start => match state {
                    ServerState::Created => {
                        self.state = ServerState::MembershipJoining;
                        ServerAction::JoinCluster { server_id: self.server_id }
                    },
                    _ => ServerAction::Nothing,
                },
                ServerEvent::Joined(bound) => match state {
                    ServerState::MembershipJoining => match bound {
                        Some(addr) => {
                            self.state = ServerState::MembershipReady;
                            ServerAction::AnnounceMembership { server_id: self.server_id, addr }
                        },
                        None => {
                            self.state = ServerState::Binding { bound: false };
                            self.bind()
                        },
                    },
                    _ => ServerAction::Nothing,
                },
                ServerEvent::Announced => match state {
                    ServerState::MembershipReady => {
                        self.state = ServerState::Binding { bound: false };
                        self.bind()
                    },
                    ServerState::Binding { bound: true } => {
                        self.state = ServerState::Serving;
                        ServerAction::Serve
                    },
                    _ => ServerAction::Nothing,
                },
                ServerEvent::Bound(addr) => match state {
                    ServerState::Binding { bound: false } => {
                        self.state = ServerState::Binding { bound: true };
                        ServerAction::AnnounceRpc { server_id: self.server_id, addr }
                    },
                    _ => ServerAction::Nothing,
                },
            },
        }
    }

    /// Takes the observer's answer to an announcement and answers with what
    /// to do next. Where the observer agreed, that is what follows the
    /// announcement. Where it refused, the server has failed, and the
    /// refusal is handed on as it came.
    pub fn conclude<A>(&mut self, told: std::io::Result<()>) -> (outcome: Result<
        ServerAction<A>,
        std::io::Error,
    >)
        ensures
            final(self).config() == old(self).config(),
            final(self).id() == old(self).id(),
            match told {
                Ok(_) => outcome matches Ok(action) && (final(self).state(), action@) == step(
                    old(self).id(),
                    old(self).config(),
                    old(self).state(),
                    ServerEvent::<A>::Announced,
                ),
                Err(refusal) => outcome == Err::<ServerAction<A>, std::io::Error>(refusal)
                    && final(self).state() == ServerState::Failed,
            },
    {
        match told {
            Ok(_) => Ok(self.advance(ServerEvent::Announced)),
            Err(refusal) => {
                let _ = self.advance::<A>(ServerEvent::Failed);
                Err(refusal)
            },
        }
    }

    /// Takes what has just happened, tells the observer what it is to be
    /// told, and answers with what to do next.
    ///
    /// Where the event calls for an announcement, the observer is told at
    /// once, before anything else is asked for: where the server joined the
    /// cluster through `on_server_start`, where it takes requests through
    /// `on_rpc_start`, each with the server's identifier and the address that
    /// came with the event. The answer is then that of
    /// [`RPCJobServer::conclude`] on what the observer said. Where the event
    /// calls for no announcement, the observer is left alone and the answer
    /// is that of [`RPCJobServer::advance`].
    pub fn run<A, E: ServiceStartListener<A>>(
        &mut self,
        event: ServerEvent<A>,
        listener: &mut E,
    ) -> (outcome: Result<ServerAction<A>, std::io::Error>)
        ensures
            final(self).config() == old(self).config(),
            final(self).id() == old(self).id(),
            ({
                let first = step(old(self).id(), old(self).config(), old(self).state(), event);
                &&& final(listener).heard() == old(listener).heard() + notices(first.1)
                &&& (final(self).state(), notices(first.1)) == run_step(
                    old(self).id(),
                    old(self).config(),
                    old(self).state(),
                    event,
                    outcome is Ok,
                )
                &&& !announces(first.1) ==> *final(listener) == *old(listener)
                &&& match outcome {
                    Ok(action) => (final(self).state(), action@) == if announces(first.1) {
                        step(
                            old(self).id(),
                            old(self).config(),
                            first.0,
                            ServerEvent::<A>::Announced,
                        )
                    } else {
                        first
                    },
                    Err(_) => announces(first.1) && final(self).state() == ServerState::Failed,
                }
            }),
    {
        let ghost before = listener.heard();
        let action = self.advance(event);
        let ghost told_of = notices(action@);
        match action {
            ServerAction::AnnounceMembership { server_id, addr } => {
                let told = listener.on_server_start(server_id, addr);
                assert(listener.heard() =~= before + told_of);
                self.conclude(told)
            },
            ServerAction::AnnounceRpc { server_id, addr } => {
                let told = listener.on_rpc_start(server_id, addr);
                assert(listener.heard() =~= before + told_of);
                self.conclude(told)
            },
            other => {
                assert(listener.heard() =~= before + told_of);
                Ok(other)
            },
        }
    }

    /// The request to bind the endpoint that the configuration describes.
    fn bind<A>(&self) -> (action: ServerAction<A>)
        ensures
            action@ == bind_of::<A>(self.config()),
    {
        ServerAction::Bind { endpoint: self.rpc_config.endpoint(), tuning: self.rpc_config.tuning() }
    }
}

/// Makes a server and asks it to come up: the answer is the first piece of
/// outside work, joining the cluster.
pub fn start_rpc_server<A>(rpc_config: RPCServerConfig, server_id: u64) -> (started: (
    RPCJobServer,
    ServerAction<A>,
))
    ensures
        started.0.config() == rpc_config,
        started.0.id() == server_id,
        started.0.state() == ServerState::MembershipJoining,
        started.1@ == (ServerActionView::<A>::JoinCluster { server_id }),
{
    let mut server = RPCJobServer::new(rpc_config, server_id);
    let action = server.advance(ServerEvent::Start);
    (server, action)
}

/// A server never goes back: an event leaves it where it is or moves it
/// forward, and outside work is asked for only where it moves forward.
pub proof fn lemma_no_reentry<A>(
    server_id: u64,
    config: RPCServerConfig,
    state: ServerState,
    event: ServerEvent<A>,
)
    ensures
        rank(step(server_id, config, state, event).0) >= rank(state),
        step(server_id, config, state, event).0 == state <==> step(
            server_id,
            config,
            state,
            event,
        ).1 is Nothing,
{
}

} // verus!
