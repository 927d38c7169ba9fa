use pegasus_server::protocol::{Code, Status};
use pegasus_server::server::{
    start_rpc_server, Endpoint, Notice, RPCJobServer, RPCServerConfig, ServerAction, ServerEvent,
    ServerState, ServiceStartListener, Tuning,
};
use std::io::{Error, ErrorKind};
use std::time::Duration;

struct Recorder {
    told: Vec<(&'static str, u64, u16)>,
    refuse: bool,
}

impl Recorder {
    fn willing() -> Recorder {
        Recorder { told: Vec::new(), refuse: false }
    }

    fn unwilling() -> Recorder {
        Recorder { told: Vec::new(), refuse: true }
    }

    fn answer(&self) -> std::io::Result<()> {
        if self.refuse {
            Err(Error::new(ErrorKind::Other, "refused"))
        } else {
            Ok(())
        }
    }
}

impl ServiceStartListener<u16> for Recorder {
    fn heard(&self) -> vstd::seq::Seq<Notice<u16>> {
        unreachable!("a record for proofs, never asked for when the program runs")
    }

    fn on_rpc_start(&mut self, server_id: u64, addr: u16) -> std::io::Result<()> {
        self.told.push(("rpc", server_id, addr));
        self.answer()
    }

    fn on_server_start(&mut self, server_id: u64, addr: u16) -> std::io::Result<()> {
        self.told.push(("server", server_id, addr));
        self.answer()
    }
}

fn unset() -> RPCServerConfig {
    RPCServerConfig {
        rpc_host: None,
        rpc_port: None,
        rpc_concurrency_limit_per_connection: None,
        rpc_timeout: None,
        rpc_initial_stream_window_size: None,
        rpc_initial_connection_window_size: None,
        rpc_max_concurrent_streams: None,
        rpc_keep_alive_interval: None,
        rpc_keep_alive_timeout: None,
        tcp_keep_alive: None,
        tcp_nodelay: None,
    }
}

fn full() -> RPCServerConfig {
    RPCServerConfig {
        rpc_host: Some("127.0.0.1".to_string()),
        rpc_port: Some(8080),
        rpc_concurrency_limit_per_connection: Some(32),
        rpc_timeout: Some(Duration::from_secs(30)),
        rpc_initial_stream_window_size: Some(1 << 16),
        rpc_initial_connection_window_size: Some(1 << 20),
        rpc_max_concurrent_streams: Some(100),
        rpc_keep_alive_interval: Some(Duration::from_secs(10)),
        rpc_keep_alive_timeout: Some(Duration::from_millis(2500)),
        tcp_keep_alive: Some(Duration::from_secs(60)),
        tcp_nodelay: Some(false),
    }
}

fn default_endpoint() -> Endpoint {
    Endpoint { host: "0.0.0.0".to_string(), port: 0, nodelay: true, keepalive: None }
}

#[test]
fn a_status_holds_its_class_and_message() {
    assert_eq!(Status::ok("ok"), Status { code: Code::Success, message: "ok".to_string() });
    assert_eq!(Status::ok(""), Status { code: Code::Success, message: String::new() });
    assert_eq!(
        Status::unknown("why".to_string()),
        Status { code: Code::Unknown, message: "why".to_string() }
    );
    assert_eq!(
        Status::invalid_argument("bad".to_string()),
        Status { code: Code::InvalidArgument, message: "bad".to_string() }
    );
    assert_eq!(
        Status::new(Code::Unknown, "x".to_string()),
        Status { code: Code::Unknown, message: "x".to_string() }
    );
}

#[test]
fn nothing_set_asks_for_no_tuning() {
    assert_eq!(unset().tuning(), vec![]);
}

#[test]
fn nothing_set_listens_everywhere_on_a_free_port_without_delay() {
    assert_eq!(unset().endpoint(), default_endpoint());
}

#[test]
fn everything_set_asks_for_every_tuning_in_order() {
    assert_eq!(
        full().tuning(),
        vec![
            Tuning::ConcurrencyLimitPerConnection(32),
            Tuning::Timeout(Duration::from_secs(30)),
            Tuning::InitialStreamWindowSize(1 << 16),
            Tuning::InitialConnectionWindowSize(1 << 20),
            Tuning::MaxConcurrentStreams(100),
            Tuning::KeepAliveInterval(Duration::from_secs(10)),
            Tuning::KeepAliveTimeout(Duration::from_millis(2500)),
        ]
    );
}

#[test]
fn everything_set_listens_as_told() {
    assert_eq!(
        full().endpoint(),
        Endpoint {
            host: "127.0.0.1".to_string(),
            port: 8080,
            nodelay: false,
            keepalive: Some(Duration::from_secs(60)),
        }
    );
}

#[test]
fn each_tuning_is_asked_for_by_itself() {
    let mut config = unset();
    config.rpc_timeout = Some(Duration::from_secs(1));
    assert_eq!(config.tuning(), vec![Tuning::Timeout(Duration::from_secs(1))]);

    let mut config = unset();
    config.rpc_max_concurrent_streams = Some(0);
    config.rpc_concurrency_limit_per_connection = Some(0);
    assert_eq!(
        config.tuning(),
        vec![Tuning::ConcurrencyLimitPerConnection(0), Tuning::MaxConcurrentStreams(0)]
    );

    let mut config = unset();
    config.rpc_keep_alive_timeout = Some(Duration::from_secs(3));
    config.rpc_initial_connection_window_size = Some(5);
    assert_eq!(
        config.tuning(),
        vec![
            Tuning::InitialConnectionWindowSize(5),
            Tuning::KeepAliveTimeout(Duration::from_secs(3)),
        ]
    );
}

#[test]
fn host_port_and_socket_options_do_not_count_as_tuning() {
    let mut config = unset();
    config.rpc_host = Some("::1".to_string());
    config.rpc_port = Some(1);
    config.tcp_keep_alive = Some(Duration::from_secs(1));
    config.tcp_nodelay = Some(true);
    assert_eq!(config.tuning(), vec![]);
    assert_eq!(
        config.endpoint(),
        Endpoint {
            host: "::1".to_string(),
            port: 1,
            nodelay: true,
            keepalive: Some(Duration::from_secs(1)),
        }
    );
}

#[test]
fn a_server_comes_up_through_every_state() {
    let mut server = RPCJobServer::new(full(), 3);
    assert_eq!(server.current(), ServerState::Created);

    let action = server.advance::<&str>(ServerEvent::Start);
    assert_eq!(action, ServerAction::JoinCluster { server_id: 3 });
    assert_eq!(server.current(), ServerState::MembershipJoining);

    let action = server.advance(ServerEvent::Joined(Some("10.0.0.1:9000")));
    assert_eq!(action, ServerAction::AnnounceMembership { server_id: 3, addr: "10.0.0.1:9000" });
    assert_eq!(server.current(), ServerState::MembershipReady);

    let action = server.advance::<&str>(ServerEvent::Announced);
    assert_eq!(action, ServerAction::Bind { endpoint: full().endpoint(), tuning: full().tuning() });
    assert_eq!(server.current(), ServerState::Binding { bound: false });

    let action = server.advance(ServerEvent::Bound("127.0.0.1:8080"));
    assert_eq!(action, ServerAction::AnnounceRpc { server_id: 3, addr: "127.0.0.1:8080" });
    assert_eq!(server.current(), ServerState::Binding { bound: true });

    let action = server.advance::<&str>(ServerEvent::Announced);
    assert_eq!(action, ServerAction::Serve);
    assert_eq!(server.current(), ServerState::Serving);
}

#[test]
fn a_cluster_without_an_address_is_not_announced() {
    let mut server = RPCJobServer::new(unset(), 0);
    server.advance::<u16>(ServerEvent::Start);
    let action = server.advance::<u16>(ServerEvent::Joined(None));
    assert_eq!(action, ServerAction::Bind { endpoint: default_endpoint(), tuning: vec![] });
    assert_eq!(server.current(), ServerState::Binding { bound: false });
}

#[test]
fn starting_asks_to_join_the_cluster() {
    let (server, action) = start_rpc_server::<u16>(unset(), 12);
    assert_eq!(action, ServerAction::JoinCluster { server_id: 12 });
    assert_eq!(server.current(), ServerState::MembershipJoining);
}

#[test]
fn a_failure_on_the_way_up_ends_the_startup() {
    let events: Vec<Vec<ServerEvent<u16>>> = vec![
        vec![],
        vec![ServerEvent::Start],
        vec![ServerEvent::Start, ServerEvent::Joined(Some(1))],
        vec![ServerEvent::Start, ServerEvent::Joined(None)],
        vec![ServerEvent::Start, ServerEvent::Joined(None), ServerEvent::Bound(2)],
    ];
    for before in events {
        let mut server = RPCJobServer::new(unset(), 1);
        for event in before {
            assert_ne!(server.advance(event), ServerAction::Nothing);
        }
        assert_eq!(server.advance::<u16>(ServerEvent::Failed), ServerAction::Abort);
        assert_eq!(server.current(), ServerState::Failed);
        assert_eq!(server.advance::<u16>(ServerEvent::Start), ServerAction::Nothing);
        assert_eq!(server.advance::<u16>(ServerEvent::Announced), ServerAction::Nothing);
        assert_eq!(server.advance::<u16>(ServerEvent::Failed), ServerAction::Nothing);
        assert_eq!(server.current(), ServerState::Failed);
    }
}

fn serving() -> RPCJobServer {
    let mut server = RPCJobServer::new(unset(), 1);
    server.advance::<u16>(ServerEvent::Start);
    server.advance::<u16>(ServerEvent::Joined(None));
    server.advance::<u16>(ServerEvent::Bound(80));
    server.advance::<u16>(ServerEvent::Announced);
    assert_eq!(server.current(), ServerState::Serving);
    server
}

#[test]
fn a_failed_connection_does_not_touch_a_serving_server() {
    let mut server = serving();
    assert_eq!(server.advance::<u16>(ServerEvent::ConnectionFailed), ServerAction::Nothing);
    assert_eq!(server.current(), ServerState::Serving);
    assert_eq!(server.advance::<u16>(ServerEvent::ConnectionFailed), ServerAction::Nothing);
    assert_eq!(server.current(), ServerState::Serving);
}

#[test]
fn a_failed_listener_ends_the_service() {
    let mut server = serving();
    assert_eq!(server.advance::<u16>(ServerEvent::Failed), ServerAction::Abort);
    assert_eq!(server.current(), ServerState::Failed);
}

#[test]
fn a_serving_server_is_not_started_again() {
    let mut server = serving();
    assert_eq!(server.advance::<u16>(ServerEvent::Start), ServerAction::Nothing);
    assert_eq!(server.advance::<u16>(ServerEvent::Joined(None)), ServerAction::Nothing);
    assert_eq!(server.advance::<u16>(ServerEvent::Bound(1)), ServerAction::Nothing);
    assert_eq!(server.advance::<u16>(ServerEvent::Announced), ServerAction::Nothing);
    assert_eq!(server.current(), ServerState::Serving);
}

#[test]
fn events_out_of_turn_leave_a_server_where_it_is() {
    let mut server = RPCJobServer::new(unset(), 1);
    assert_eq!(server.advance::<u16>(ServerEvent::Announced), ServerAction::Nothing);
    assert_eq!(server.advance::<u16>(ServerEvent::Bound(1)), ServerAction::Nothing);
    assert_eq!(server.advance::<u16>(ServerEvent::Joined(Some(1))), ServerAction::Nothing);
    assert_eq!(server.advance::<u16>(ServerEvent::ConnectionFailed), ServerAction::Nothing);
    assert_eq!(server.current(), ServerState::Created);

    server.advance::<u16>(ServerEvent::Start);
    assert_eq!(server.advance::<u16>(ServerEvent::Start), ServerAction::Nothing);
    assert_eq!(server.advance::<u16>(ServerEvent::Announced), ServerAction::Nothing);
    assert_eq!(server.advance::<u16>(ServerEvent::Bound(1)), ServerAction::Nothing);
    assert_eq!(server.current(), ServerState::MembershipJoining);

    server.advance::<u16>(ServerEvent::Joined(Some(5)));
    assert_eq!(server.advance::<u16>(ServerEvent::Bound(1)), ServerAction::Nothing);
    assert_eq!(server.advance::<u16>(ServerEvent::Joined(None)), ServerAction::Nothing);
    assert_eq!(server.current(), ServerState::MembershipReady);

    server.advance::<u16>(ServerEvent::Announced);
    assert_eq!(server.advance::<u16>(ServerEvent::Announced), ServerAction::Nothing);
    assert_eq!(server.current(), ServerState::Binding { bound: false });

    server.advance::<u16>(ServerEvent::Bound(9));
    assert_eq!(server.advance::<u16>(ServerEvent::Bound(9)), ServerAction::Nothing);
    assert_eq!(server.current(), ServerState::Binding { bound: true });
}

#[test]
fn the_observer_is_told_each_address_before_the_next_step() {
    let mut observer = Recorder::willing();
    let mut server = RPCJobServer::new(unset(), 4);

    let action = server.run(ServerEvent::Start, &mut observer).unwrap();
    assert_eq!(action, ServerAction::JoinCluster { server_id: 4 });
    assert!(observer.told.is_empty());

    let action = server.run(ServerEvent::Joined(Some(9000)), &mut observer).unwrap();
    assert_eq!(observer.told, vec![("server", 4, 9000)]);
    assert_eq!(action, ServerAction::Bind { endpoint: default_endpoint(), tuning: vec![] });
    assert_eq!(server.current(), ServerState::Binding { bound: false });

    let action = server.run(ServerEvent::Bound(8080), &mut observer).unwrap();
    assert_eq!(observer.told, vec![("server", 4, 9000), ("rpc", 4, 8080)]);
    assert_eq!(action, ServerAction::Serve);
    assert_eq!(server.current(), ServerState::Serving);

    let action = server.run(ServerEvent::ConnectionFailed, &mut observer).unwrap();
    assert_eq!(action, ServerAction::Nothing);
    assert_eq!(observer.told.len(), 2);
}

#[test]
fn the_observer_is_not_told_of_a_cluster_without_an_address() {
    let mut observer = Recorder::willing();
    let mut server = RPCJobServer::new(unset(), 4);
    server.run(ServerEvent::Start, &mut observer).unwrap();
    let action = server.run(ServerEvent::Joined(None), &mut observer).unwrap();
    assert!(observer.told.is_empty());
    assert_eq!(action, ServerAction::Bind { endpoint: default_endpoint(), tuning: vec![] });
    let action = server.run(ServerEvent::Bound(1), &mut observer).unwrap();
    assert_eq!(observer.told, vec![("rpc", 4, 1)]);
    assert_eq!(action, ServerAction::Serve);
}

#[test]
fn an_observer_that_refuses_the_cluster_address_ends_the_startup() {
    let mut observer = Recorder::unwilling();
    let mut server = RPCJobServer::new(unset(), 4);
    server.run(ServerEvent::Start, &mut observer).unwrap();
    let refusal = server.run(ServerEvent::Joined(Some(9000)), &mut observer).unwrap_err();
    assert_eq!(refusal.kind(), ErrorKind::Other);
    assert_eq!(observer.told, vec![("server", 4, 9000)]);
    assert_eq!(server.current(), ServerState::Failed);
    let action = server.run(ServerEvent::Announced, &mut observer).unwrap();
    assert_eq!(action, ServerAction::Nothing);
    assert_eq!(observer.told.len(), 1);
}

#[test]
fn an_observer_that_refuses_the_rpc_address_ends_the_startup() {
    let mut willing = Recorder::willing();
    let mut server = RPCJobServer::new(unset(), 4);
    server.run(ServerEvent::Start, &mut willing).unwrap();
    server.run(ServerEvent::Joined(None), &mut willing).unwrap();
    let mut unwilling = Recorder::unwilling();
    let refusal = server.run(ServerEvent::Bound(8080), &mut unwilling).unwrap_err();
    assert_eq!(refusal.to_string(), "refused");
    assert_eq!(unwilling.told, vec![("rpc", 4, 8080)]);
    assert_eq!(server.current(), ServerState::Failed);
}

#[test]
fn a_failure_is_not_the_business_of_the_observer() {
    let mut observer = Recorder::unwilling();
    let mut server = RPCJobServer::new(unset(), 4);
    server.run(ServerEvent::Start, &mut observer).unwrap();
    let action = server.run(ServerEvent::Failed, &mut observer).unwrap();
    assert_eq!(action, ServerAction::Abort);
    assert!(observer.told.is_empty());
    assert_eq!(server.current(), ServerState::Failed);
}

#[test]
fn an_observer_that_agrees_lets_the_server_go_on() {
    let mut server = RPCJobServer::new(unset(), 4);
    server.advance::<u16>(ServerEvent::Start);
    server.advance::<u16>(ServerEvent::Joined(Some(9000)));
    assert_eq!(server.current(), ServerState::MembershipReady);
    let action = server.conclude::<u16>(Ok(())).unwrap();
    assert_eq!(action, ServerAction::Bind { endpoint: default_endpoint(), tuning: vec![] });
    assert_eq!(server.current(), ServerState::Binding { bound: false });

    server.advance::<u16>(ServerEvent::Bound(8080));
    let action = server.conclude::<u16>(Ok(())).unwrap();
    assert_eq!(action, ServerAction::Serve);
    assert_eq!(server.current(), ServerState::Serving);
}

#[test]
fn an_observer_that_refuses_fails_the_server_with_its_own_words() {
    let mut server = RPCJobServer::new(unset(), 4);
    server.advance::<u16>(ServerEvent::Start);
    server.advance::<u16>(ServerEvent::Joined(Some(9000)));
    let refusal = server
        .conclude::<u16>(Err(Error::new(ErrorKind::PermissionDenied, "not here")))
        .unwrap_err();
    assert_eq!(refusal.kind(), ErrorKind::PermissionDenied);
    assert_eq!(refusal.to_string(), "not here");
    assert_eq!(server.current(), ServerState::Failed);

    let mut server = RPCJobServer::new(unset(), 4);
    server.advance::<u16>(ServerEvent::Start);
    server.advance::<u16>(ServerEvent::Joined(None));
    server.advance::<u16>(ServerEvent::Bound(1));
    let refusal =
        server.conclude::<u16>(Err(Error::new(ErrorKind::AddrInUse, "taken"))).unwrap_err();
    assert_eq!(refusal.kind(), ErrorKind::AddrInUse);
    assert_eq!(server.current(), ServerState::Failed);
}

#[test]
fn an_answer_that_nobody_waits_for_changes_nothing() {
    let mut server = RPCJobServer::new(unset(), 4);
    let action = server.conclude::<u16>(Ok(())).unwrap();
    assert_eq!(action, ServerAction::Nothing);
    assert_eq!(server.current(), ServerState::Created);
}

#[test]
fn an_observer_hears_of_a_server_at_most_twice_and_in_order() {
    let mut observer = Recorder::willing();
    let mut server = RPCJobServer::new(unset(), 6);
    let events = vec![
        ServerEvent::Announced,
        ServerEvent::Bound(1),
        ServerEvent::Start,
        ServerEvent::Start,
        ServerEvent::Joined(Some(10)),
        ServerEvent::Joined(Some(11)),
        ServerEvent::Announced,
        ServerEvent::Bound(20),
        ServerEvent::Bound(21),
        ServerEvent::Joined(Some(12)),
        ServerEvent::ConnectionFailed,
        ServerEvent::Failed,
        ServerEvent::Bound(22),
        ServerEvent::Joined(Some(13)),
    ];
    for event in events {
        server.run(event, &mut observer).unwrap();
    }
    assert_eq!(observer.told, vec![("server", 6, 10), ("rpc", 6, 20)]);
    assert_eq!(server.current(), ServerState::Failed);
}
