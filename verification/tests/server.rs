use axum_server::tls_rustls::RustlsConfig;
use dav::server::Dispatch;
use dav::{
    BindAddr, Certificate, ConfigError, DavConfig, DavServer, Gate, IpAddress, RootStatus, ServerAction,
    ServerError, ServerEvent, ServerPhase, TlsConfig,
};

const PHASES: [ServerPhase; 5] = [
    ServerPhase::Unvalidated,
    ServerPhase::Validated,
    ServerPhase::Bound,
    ServerPhase::Serving,
    ServerPhase::Stopped,
];

const EVENTS: [ServerEvent; 9] = [
    ServerEvent::Start(RootStatus::Missing),
    ServerEvent::Start(RootStatus::NotDirectory),
    ServerEvent::Start(RootStatus::Directory),
    ServerEvent::Listening,
    ServerEvent::Accepting,
    ServerEvent::TlsRejected,
    ServerEvent::BindFailed,
    ServerEvent::ServeFailed,
    ServerEvent::Cancelled,
];

fn rank(phase: ServerPhase) -> u8 {
    match phase {
        ServerPhase::Unvalidated => 0,
        ServerPhase::Validated => 1,
        ServerPhase::Bound => 2,
        ServerPhase::Serving => 3,
        ServerPhase::Stopped => 4,
    }
}

fn servers() -> Vec<DavServer> {
    vec![
        DavConfig::new().build(),
        DavConfig::new().root("../public".to_string()).build(),
        DavConfig::new().root("../public".to_string()).http_path("dav".to_string()).build(),
        DavConfig::new().root("../public".to_string()).tls(TlsConfig::pem(vec![1], vec![2])).build(),
        DavConfig::new().root("../public".to_string()).tls(TlsConfig::pem(vec![], vec![])).build(),
    ]
}

fn loads(material: &Certificate) -> bool {
    let runtime = tokio::runtime::Builder::new_current_thread().enable_all().build().unwrap();
    runtime.block_on(async {
        match material {
            Certificate::Pem { cert, key } => RustlsConfig::from_pem(cert.clone(), key.clone()).await.is_ok(),
            Certificate::Der { cert, key } => RustlsConfig::from_der(cert.clone(), key.clone()).await.is_ok(),
        }
    })
}

/// Starts the server on a root that is a directory and reports what loading
/// its TLS material gave: the phase and action after that report.
fn start_with_tls(server: &DavServer) -> (ServerPhase, ServerAction<'_>) {
    let (phase, action) = server.step(ServerPhase::Unvalidated, ServerEvent::Start(RootStatus::Directory));
    assert_eq!(phase, ServerPhase::Validated);
    let loaded = match action {
        ServerAction::Listen(launch) => {
            assert_eq!(launch.bind, BindAddr::new(IpAddress::V4(127, 0, 0, 1), 8443));
            assert_eq!(launch.root, "../public");
            loads(launch.tls.unwrap())
        },
        other => panic!("{:?}", other),
    };
    if loaded {
        server.step(phase, ServerEvent::Listening)
    } else {
        server.step(phase, ServerEvent::TlsRejected)
    }
}

#[test]
fn test_dav_server() {
    let server = DavServer::builder()
        .root("../public".to_string())
        .bind(BindAddr::new(IpAddress::V4(127, 0, 0, 1), 8080))
        .build();
    let (phase, action) = server.step(ServerPhase::Unvalidated, ServerEvent::Start(RootStatus::Directory));
    assert_eq!(phase, ServerPhase::Validated);
    match action {
        ServerAction::Listen(launch) => {
            assert_eq!(launch.bind, BindAddr::new(IpAddress::V4(127, 0, 0, 1), 8080));
            assert_eq!(launch.root, "../public");
            assert_eq!(launch.prefix, "/");
            assert_eq!(launch.gate, Gate::Disabled);
            assert_eq!(launch.tls, None);
        },
        other => panic!("{:?}", other),
    }
    assert_eq!(server.step(phase, ServerEvent::Listening), (ServerPhase::Bound, ServerAction::Serve));
    assert_eq!(
        server.step(ServerPhase::Bound, ServerEvent::Accepting),
        (ServerPhase::Serving, ServerAction::Wait)
    );
    assert_eq!(
        server.step(ServerPhase::Serving, ServerEvent::Cancelled),
        (ServerPhase::Stopped, ServerAction::Halt)
    );
}

#[test]
fn test_dav_server_tls_pem() {
    let cert = rcgen::generate_simple_self_signed(vec!["localhost".to_string()]).unwrap();
    let tls_config =
        TlsConfig::pem(cert.serialize_pem().unwrap().into_bytes(), cert.serialize_private_key_pem().into_bytes());
    let server = DavServer::builder()
        .root("../public".to_string())
        .bind(BindAddr::new(IpAddress::V4(127, 0, 0, 1), 8443))
        .tls(tls_config)
        .build();
    assert_eq!(start_with_tls(&server), (ServerPhase::Bound, ServerAction::Serve));
}

#[test]
fn test_dav_server_tls_der() {
    let cert = rcgen::generate_simple_self_signed(vec!["localhost".to_string()]).unwrap();
    let tls_config = TlsConfig::der(vec![cert.serialize_der().unwrap()], cert.serialize_private_key_der());
    let server = DavServer::builder()
        .root("../public".to_string())
        .bind(BindAddr::new(IpAddress::V4(127, 0, 0, 1), 8443))
        .tls(tls_config)
        .build();
    assert_eq!(start_with_tls(&server), (ServerPhase::Bound, ServerAction::Serve));
}

#[test]
fn truncated_tls_material_fails_the_start() {
    let cert = rcgen::generate_simple_self_signed(vec!["localhost".to_string()]).unwrap();
    let mut key = cert.serialize_private_key_der();
    key.truncate(key.len() / 2);
    let der = DavServer::builder()
        .root("../public".to_string())
        .bind(BindAddr::new(IpAddress::V4(127, 0, 0, 1), 8443))
        .tls(TlsConfig::der(vec![cert.serialize_der().unwrap()], key))
        .build();
    assert_eq!(start_with_tls(&der), (ServerPhase::Stopped, ServerAction::Fail(ServerError::TlsMaterial)));
    let mut key = cert.serialize_private_key_pem().into_bytes();
    key.truncate(40);
    let pem = DavServer::builder()
        .root("../public".to_string())
        .bind(BindAddr::new(IpAddress::V4(127, 0, 0, 1), 8443))
        .tls(TlsConfig::pem(cert.serialize_pem().unwrap().into_bytes(), key))
        .build();
    assert_eq!(start_with_tls(&pem), (ServerPhase::Stopped, ServerAction::Fail(ServerError::TlsMaterial)));
}

#[test]
fn end_to_end_plain_server_under_prefix() {
    let server = DavConfig::new()
        .root("/srv/files".to_string())
        .http_path("/dav/".to_string())
        .bind(BindAddr::new(IpAddress::V4(127, 0, 0, 1), 8080))
        .build();
    let launch = server.plan(RootStatus::Directory).unwrap();
    assert_eq!(launch.bind, BindAddr::new(IpAddress::V4(127, 0, 0, 1), 8080));
    assert_eq!(launch.root, "/srv/files");
    assert_eq!(launch.prefix, "/dav/");
    assert_eq!(launch.gate, Gate::Disabled);
    assert_eq!(launch.tls, None);
    assert_eq!(server.dispatch(None, "/dav/readme.txt"), Dispatch::Handle("/readme.txt"));
    assert_eq!(server.dispatch(Some(b"Basic YWxpY2U6czNjcmV0"), "/dav/readme.txt"), Dispatch::Handle("/readme.txt"));
    assert_eq!(server.dispatch(None, "/other/x"), Dispatch::Unmatched);
    assert!(server.handler().is_some());
}

#[test]
fn gate_stands_before_the_handler() {
    let server = DavConfig::new()
        .root("/srv/files".to_string())
        .http_path("/dav/".to_string())
        .authorization("alice".to_string(), "s3cret".to_string())
        .build();
    assert_eq!(server.dispatch(Some(b"Basic YWxpY2U6czNjcmV0"), "/dav/readme.txt"), Dispatch::Handle("/readme.txt"));
    assert_eq!(server.dispatch(Some(b"Basic YWxpY2U6d3Jvbmc="), "/dav/readme.txt"), Dispatch::Unauthorized);
    assert_eq!(server.dispatch(Some(b"Basic Ym9iOnMzY3JldA=="), "/dav/readme.txt"), Dispatch::Unauthorized);
    assert_eq!(server.dispatch(None, "/dav/readme.txt"), Dispatch::Unauthorized);
    assert_eq!(server.dispatch(None, "/other/x"), Dispatch::Unauthorized);
    assert_eq!(server.dispatch(Some(b"Basic YWxpY2U6czNjcmV0"), "/other/x"), Dispatch::Unmatched);
    let alice = Some(("alice".to_string(), "s3cret".to_string()));
    assert_eq!(server.decide(&alice, "/dav/a"), Dispatch::Handle("/a"));
    assert_eq!(server.decide(&None, "/dav/a"), Dispatch::Unauthorized);
    assert_eq!(server.decide(&alice, "/a"), Dispatch::Unmatched);
}

#[test]
fn plan_follows_the_configuration() {
    let cert = Certificate::Der { cert: vec![vec![1, 2, 3]], key: vec![4, 5] };
    let server = DavConfig::new()
        .root("/srv/files".to_string())
        .authorization("alice".to_string(), "s3cret".to_string())
        .tls(TlsConfig::der(vec![vec![1, 2, 3]], vec![4, 5]))
        .build();
    let launch = server.plan(RootStatus::Directory).unwrap();
    assert_eq!(launch.bind, BindAddr::new(IpAddress::unspecified(), 8080));
    assert_eq!(launch.prefix, "/");
    assert_eq!(launch.gate, Gate::new(Some(dav::Account::new("alice".to_string(), "s3cret".to_string()))));
    assert_eq!(launch.tls, Some(&cert));
}

#[test]
fn plan_refuses_what_validation_refuses() {
    assert_eq!(DavConfig::new().build().plan(RootStatus::Directory), Err(ConfigError::RootNotSet));
    let server = DavConfig::new().root("/srv/files".to_string()).http_path("dav".to_string()).build();
    assert_eq!(server.plan(RootStatus::Missing), Err(ConfigError::RootNotExists));
    assert_eq!(server.plan(RootStatus::NotDirectory), Err(ConfigError::RootNotDirectory));
    assert_eq!(server.plan(RootStatus::Directory), Err(ConfigError::HttpPathMalformed));
}

#[test]
fn material_without_the_switch_gives_a_plain_listener() {
    let config = DavConfig::from_parts(
        BindAddr::new(IpAddress::V4(127, 0, 0, 1), 8080),
        Some("/srv/files".to_string()),
        None,
        None,
        None,
        Some(TlsConfig::pem(b"cert".to_vec(), b"key".to_vec())),
        false,
    );
    let server = config.build();
    assert_eq!(server.plan(RootStatus::Directory).unwrap().tls, None);
    assert_eq!(
        server.step(ServerPhase::Validated, ServerEvent::TlsRejected),
        (ServerPhase::Validated, ServerAction::Ignore)
    );
}

#[test]
fn broken_configuration_stops_before_listening() {
    let cases = [
        (DavConfig::new().build(), RootStatus::Directory, ConfigError::RootNotSet),
        (DavConfig::new().root("x".to_string()).build(), RootStatus::Missing, ConfigError::RootNotExists),
        (DavConfig::new().root("x".to_string()).build(), RootStatus::NotDirectory, ConfigError::RootNotDirectory),
        (
            DavConfig::new().root("x".to_string()).http_path("dav".to_string()).build(),
            RootStatus::Directory,
            ConfigError::HttpPathMalformed,
        ),
        (
            DavConfig::new().root("x".to_string()).tls(TlsConfig::pem(vec![], vec![])).build(),
            RootStatus::Directory,
            ConfigError::TlsMaterialEmpty,
        ),
    ];
    for (server, root, error) in cases {
        assert_eq!(
            server.step(ServerPhase::Unvalidated, ServerEvent::Start(root)),
            (ServerPhase::Stopped, ServerAction::Fail(ServerError::Config(error)))
        );
    }
}

#[test]
fn startup_failures_stop_the_server() {
    let plain = DavConfig::new().root("x".to_string()).build();
    let tls = DavConfig::new().root("x".to_string()).tls(TlsConfig::pem(vec![1], vec![2])).build();
    assert_eq!(
        plain.step(ServerPhase::Validated, ServerEvent::BindFailed),
        (ServerPhase::Stopped, ServerAction::Fail(ServerError::Bind))
    );
    assert_eq!(
        tls.step(ServerPhase::Validated, ServerEvent::BindFailed),
        (ServerPhase::Stopped, ServerAction::Fail(ServerError::Bind))
    );
    assert_eq!(
        tls.step(ServerPhase::Validated, ServerEvent::TlsRejected),
        (ServerPhase::Stopped, ServerAction::Fail(ServerError::TlsMaterial))
    );
    assert_eq!(
        plain.step(ServerPhase::Bound, ServerEvent::ServeFailed),
        (ServerPhase::Stopped, ServerAction::Fail(ServerError::Serve))
    );
    assert_eq!(
        plain.step(ServerPhase::Serving, ServerEvent::ServeFailed),
        (ServerPhase::Stopped, ServerAction::Fail(ServerError::Serve))
    );
}

#[test]
fn stopped_server_ignores_everything() {
    for server in servers() {
        for event in EVENTS {
            assert_eq!(server.step(ServerPhase::Stopped, event), (ServerPhase::Stopped, ServerAction::Ignore));
        }
    }
}

#[test]
fn cancellation_stops_from_every_phase() {
    for server in servers() {
        for phase in [ServerPhase::Unvalidated, ServerPhase::Validated, ServerPhase::Bound, ServerPhase::Serving] {
            assert_eq!(server.step(phase, ServerEvent::Cancelled), (ServerPhase::Stopped, ServerAction::Halt));
        }
    }
}

#[test]
fn phases_never_go_back() {
    for server in servers() {
        for phase in PHASES {
            for event in EVENTS {
                let (next, action) = server.step(phase, event);
                assert!(rank(next) >= rank(phase));
                if matches!(action, ServerAction::Listen(_)) {
                    assert_eq!(phase, ServerPhase::Unvalidated);
                    assert_eq!(event, ServerEvent::Start(RootStatus::Directory));
                    assert_eq!(next, ServerPhase::Validated);
                    assert_eq!(server.config().validate(RootStatus::Directory), Ok(()));
                }
                if matches!(action, ServerAction::Fail(_) | ServerAction::Halt) {
                    assert_eq!(next, ServerPhase::Stopped);
                }
                if action == ServerAction::Ignore {
                    assert_eq!(next, phase);
                }
                if action == ServerAction::Serve {
                    assert_eq!((phase, next), (ServerPhase::Validated, ServerPhase::Bound));
                }
                if action == ServerAction::Wait {
                    assert_eq!((phase, next), (ServerPhase::Bound, ServerPhase::Serving));
                }
            }
        }
    }
}

#[test]
fn reports_out_of_place_change_nothing() {
    let server = DavConfig::new().root("x".to_string()).build();
    let out_of_place = [
        (ServerPhase::Unvalidated, ServerEvent::Listening),
        (ServerPhase::Unvalidated, ServerEvent::Accepting),
        (ServerPhase::Unvalidated, ServerEvent::BindFailed),
        (ServerPhase::Unvalidated, ServerEvent::ServeFailed),
        (ServerPhase::Validated, ServerEvent::Start(RootStatus::Directory)),
        (ServerPhase::Validated, ServerEvent::Accepting),
        (ServerPhase::Validated, ServerEvent::ServeFailed),
        (ServerPhase::Bound, ServerEvent::Start(RootStatus::Directory)),
        (ServerPhase::Bound, ServerEvent::Listening),
        (ServerPhase::Bound, ServerEvent::BindFailed),
        (ServerPhase::Serving, ServerEvent::Start(RootStatus::Missing)),
        (ServerPhase::Serving, ServerEvent::Accepting),
        (ServerPhase::Serving, ServerEvent::TlsRejected),
    ];
    for (phase, event) in out_of_place {
        assert_eq!(server.step(phase, event), (phase, ServerAction::Ignore));
    }
}

#[test]
fn handler_needs_a_root() {
    assert!(DavConfig::new().build().handler().is_none());
    assert!(DavConfig::new().root("/srv/files".to_string()).build().handler().is_some());
    assert!(DavConfig::new()
        .root("/srv/files".to_string())
        .http_path("/dav/".to_string())
        .build()
        .handler()
        .is_some());
}

#[test]
fn server_error_messages() {
    assert_eq!(ServerError::Config(ConfigError::RootNotSet).message(), "root path not set");
    assert_eq!(
        ServerError::Config(ConfigError::TlsMaterialEmpty).message(),
        "tls cert and key must not be empty"
    );
    assert_eq!(ServerError::TlsMaterial.message(), "failed to load tls cert");
    assert_eq!(ServerError::Bind.message(), "failed to start dav server");
    assert_eq!(ServerError::Serve.message(), "failed to start dav server");
}
