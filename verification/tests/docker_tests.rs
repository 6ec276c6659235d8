use tuikk::base_err::BaseErr;
use tuikk::docker_conn::{
    ClientVersion, ConnectRequest, DefaultConnectionType, DockerConfig, DockerConnError, DockerConnection,
    DockerRegistry,
};

fn conn(kind: DefaultConnectionType, addr: Option<&str>, version: Option<&str>) -> DockerConnection {
    DockerConnection {
        config: DockerConfig {
            default_conn_type: kind,
            addr_or_path: addr.map(|s| s.to_string()),
            timeout: 120,
            client_version: version.map(|s| s.to_string()),
        },
    }
}

fn http_config(addr: &str) -> DockerConfig {
    conn(DefaultConnectionType::HTTP, Some(addr), None).config
}

#[test]
fn docker_config_default_values() {
    let c = DockerConfig::default();
    assert_eq!(c.default_conn_type, DefaultConnectionType::SOCKET);
    assert_eq!(c.addr_or_path, None);
    assert_eq!(c.timeout, 120);
    assert_eq!(c.client_version, None);
    assert_eq!(DefaultConnectionType::default(), DefaultConnectionType::SOCKET);
}

#[test]
fn addr_or_path_trims_and_drops_blank() {
    let k = DefaultConnectionType::SOCKET;
    assert_eq!(conn(k, None, None).addr_or_path(), None);
    assert_eq!(conn(k, Some(""), None).addr_or_path(), None);
    assert_eq!(conn(k, Some(" \t\n "), None).addr_or_path(), None);
    assert_eq!(conn(k, Some("\u{3000}"), None).addr_or_path(), None);
    assert_eq!(conn(k, Some("  /var/run/docker.sock \n"), None).addr_or_path(), Some("/var/run/docker.sock"));
    assert_eq!(conn(k, Some("a b"), None).addr_or_path(), Some("a b"));
}

#[test]
fn parse_client_version_reads_major_minor() {
    let k = DefaultConnectionType::SOCKET;
    let v = |s: Option<&str>| conn(k, None, s).parse_client_version();
    assert_eq!(v(Some("1.41")), ClientVersion { major_version: 1, minor_version: 41 });
    assert_eq!(v(Some("+2.007")), ClientVersion { major_version: 2, minor_version: 7 });
    assert_eq!(v(Some("0.0")), ClientVersion { major_version: 0, minor_version: 0 });
}

#[test]
fn parse_client_version_falls_back_to_default() {
    let k = DefaultConnectionType::SOCKET;
    let default = ClientVersion { major_version: 1, minor_version: 53 };
    for s in [None, Some(""), Some("1"), Some("1.2.3"), Some("a.b"), Some("1."), Some(".2"),
              Some(" 1.2"), Some("1.-2"), Some("99999999999999999999999.1")] {
        assert_eq!(conn(k, None, s).parse_client_version(), default, "input {:?}", s);
    }
}

#[test]
fn http_url_normalises_scheme() {
    let k = DefaultConnectionType::HTTP;
    let url = |a: Option<&str>| conn(k, a, None).http_url();
    assert_eq!(url(Some("tcp://host:2375")).ok(), Some("http://host:2375".to_string()));
    assert_eq!(url(Some("  tcp://h  ")).ok(), Some("http://h".to_string()));
    assert_eq!(url(Some("http://h:1")).ok(), Some("http://h:1".to_string()));
    assert_eq!(url(Some("https://h")).ok(), Some("https://h".to_string()));
    for bad in [None, Some(""), Some("unix:///var/run/docker.sock"), Some("TCP://h"), Some("host:2375")] {
        assert!(matches!(url(bad), Err(DockerConnError::MissingAddrOrPath)), "input {:?}", bad);
    }
}

#[test]
fn connection_over_http() {
    assert!(conn(DefaultConnectionType::HTTP, Some("tcp://127.0.0.1:2375"), Some("1.41")).connection(true).is_ok());
    assert!(matches!(
        conn(DefaultConnectionType::HTTP, Some("ftp://x"), None).connection(true),
        Err(DockerConnError::MissingAddrOrPath)
    ));
    assert!(matches!(
        conn(DefaultConnectionType::HTTP, None, None).connection(true),
        Err(DockerConnError::MissingAddrOrPath)
    ));
}

#[test]
fn connection_over_missing_socket_fails_in_client() {
    for k in [DefaultConnectionType::SOCKET, DefaultConnectionType::LOCAL] {
        let r = conn(k, Some("/nonexistent/tuikk/docker.sock"), None).connection(true);
        assert!(matches!(r, Err(DockerConnError::Bollard(_))));
    }
}

#[test]
fn registry_lifecycle() {
    let mut reg = DockerRegistry::new();
    assert!(!DockerConnection::is_initialized(&reg));
    assert!(matches!(DockerConnection::global(&reg), Err(DockerConnError::NotInitialized)));
    assert!(matches!(
        DockerConnection::reload_global(&mut reg, http_config("tcp://a:1"), true),
        Err(DockerConnError::NotInitialized)
    ));
    assert!(!DockerConnection::is_initialized(&reg));

    assert!(DockerConnection::init_global(&mut reg, http_config("tcp://a:1"), true).is_ok());
    assert!(DockerConnection::is_initialized(&reg));
    assert!(DockerConnection::global(&reg).is_ok());

    assert!(matches!(
        DockerConnection::init_global(&mut reg, http_config("tcp://b:2"), true),
        Err(DockerConnError::AlreadyInitialized)
    ));
    assert!(DockerConnection::reload_global(&mut reg, http_config("http://b:2"), true).is_ok());
    assert!(matches!(
        DockerConnection::reload_global(&mut reg, http_config("nothing"), true),
        Err(DockerConnError::MissingAddrOrPath)
    ));
    assert!(DockerConnection::is_initialized(&reg));
    assert!(DockerConnection::global(&reg).is_ok());
}

#[test]
fn registry_failed_setup_leaves_it_empty() {
    let mut reg = DockerRegistry::new();
    assert!(matches!(
        DockerConnection::init_global(&mut reg, http_config(""), true),
        Err(DockerConnError::MissingAddrOrPath)
    ));
    assert!(!DockerConnection::is_initialized(&reg));
    assert!(matches!(reg.install(Err(DockerConnError::NotInitialized)), Err(DockerConnError::NotInitialized)));
    assert!(!DockerConnection::is_initialized(&reg));
}

#[test]
fn docker_conn_error_messages() {
    assert_eq!(
        DockerConnError::MissingAddrOrPath.message(),
        "Docker address or path is missing, empty or invalid"
    );
    assert_eq!(DockerConnError::NotInitialized.message(), "Docker connection has not been initialized");
    assert_eq!(
        DockerConnError::AlreadyInitialized.message(),
        "Docker connection has already been initialized"
    );
    assert_eq!(
        DockerConnError::Base(BaseErr::Io("gone".to_string())).message(),
        "Standard I/O error: gone"
    );
    let r = conn(DefaultConnectionType::SOCKET, Some("/nonexistent/x.sock"), None).connection(true);
    match r {
        Err(e @ DockerConnError::Bollard(_)) => {
            let m = e.message();
            assert!(m.starts_with("Docker daemon error: "));
            if let DockerConnError::Bollard(b) = &e {
                assert_eq!(m, format!("Docker daemon error: {}", b));
            }
        }
        _ => panic!("expected a client error"),
    }
}

#[test]
fn http_url_is_stable_under_normalisation() {
    for a in ["tcp://h:1", "http://h", "https://h:2"] {
        let first = conn(DefaultConnectionType::HTTP, Some(a), None).http_url().ok().unwrap();
        let again = conn(DefaultConnectionType::HTTP, Some(&first), None).http_url().ok().unwrap();
        assert_eq!(first, again);
    }
}

#[test]
fn address_is_used_trimmed() {
    let k = DefaultConnectionType::SOCKET;
    let c = conn(k, Some(" \u{2003}/run/docker.sock\t"), None);
    let a = c.addr_or_path().unwrap().to_string();
    assert_eq!(a, "/run/docker.sock");
    assert_eq!(conn(k, Some(&a), None).addr_or_path(), Some(a.as_str()));
}

#[test]
fn connect_request_per_transport() {
    let v141 = ClientVersion { major_version: 1, minor_version: 41 };
    let default = ClientVersion { major_version: 1, minor_version: 53 };
    match conn(DefaultConnectionType::LOCAL, Some(" /tmp/d.sock "), Some("1.41")).connect_request(true) {
        Ok(ConnectRequest::Local { path, timeout, version }) => {
            assert_eq!(path, "/tmp/d.sock");
            assert_eq!(timeout, 120);
            assert_eq!(version, v141);
        }
        other => panic!("unexpected {:?}", other),
    }
    assert!(matches!(
        conn(DefaultConnectionType::LOCAL, Some("  "), None).connect_request(true),
        Ok(ConnectRequest::LocalDefaults)
    ));
    match conn(DefaultConnectionType::SOCKET, Some("unix:///run/d.sock"), None).connect_request(true) {
        Ok(ConnectRequest::Socket { path, timeout, version }) => {
            assert_eq!(path, "unix:///run/d.sock");
            assert_eq!(timeout, 120);
            assert_eq!(version, default);
        }
        other => panic!("unexpected {:?}", other),
    }
    assert!(matches!(
        conn(DefaultConnectionType::SOCKET, None, None).connect_request(true),
        Ok(ConnectRequest::SocketDefaults)
    ));
    match conn(DefaultConnectionType::HTTP, Some("tcp://d:2375"), Some("1.41")).connect_request(true) {
        Ok(ConnectRequest::Http { url, timeout, version }) => {
            assert_eq!(url, "http://d:2375");
            assert_eq!(timeout, 120);
            assert_eq!(version, v141);
        }
        other => panic!("unexpected {:?}", other),
    }
    assert!(matches!(
        conn(DefaultConnectionType::HTTP, Some("unix:///x"), None).connect_request(true),
        Err(DockerConnError::MissingAddrOrPath)
    ));
}

#[test]
fn shared_errors_convert_into_domain_errors() {
    let e: DockerConnError = BaseErr::Io("x".to_string()).into();
    assert!(matches!(e, DockerConnError::Base(BaseErr::Io(ref m)) if m == "x"));
    let c: tuikk::config::ConfigError = BaseErr::Serialization("y".to_string()).into();
    assert_eq!(c, tuikk::config::ConfigError::Base(BaseErr::Serialization("y".to_string())));
    assert_eq!(c.message(), "Serialization error: y");
}

#[test]
fn version_text_reads_back() {
    for (a, b) in [(0usize, 0usize), (1, 41), (12, 345), (usize::MAX, 7)] {
        let text = format!(
            "{}.{}",
            tuikk::text::decimal_string(a as u64),
            tuikk::text::decimal_string(b as u64)
        );
        let v = conn(DefaultConnectionType::SOCKET, None, Some(&text)).parse_client_version();
        assert_eq!(v, ClientVersion { major_version: a, minor_version: b });
    }
}

#[test]
fn socket_transport_is_local_off_unix() {
    match conn(DefaultConnectionType::SOCKET, Some(" /run/d.sock"), Some("1.41")).connect_request(false) {
        Ok(ConnectRequest::Local { path, timeout, version }) => {
            assert_eq!(path, "/run/d.sock");
            assert_eq!(timeout, 120);
            assert_eq!(version, ClientVersion { major_version: 1, minor_version: 41 });
        }
        other => panic!("unexpected {:?}", other),
    }
    assert!(matches!(
        conn(DefaultConnectionType::SOCKET, None, None).connect_request(false),
        Ok(ConnectRequest::LocalDefaults)
    ));
    assert!(matches!(
        conn(DefaultConnectionType::LOCAL, None, None).connect_request(false),
        Ok(ConnectRequest::LocalDefaults)
    ));
    assert!(matches!(
        conn(DefaultConnectionType::HTTP, Some("tcp://h"), None).connect_request(false),
        Ok(ConnectRequest::Http { .. })
    ));
}

#[test]
fn trimmed_tcp_address_becomes_http_url() {
    let c = conn(DefaultConnectionType::HTTP, Some(" tcp://10.0.0.1:2375 "), None);
    assert_eq!(c.http_url().ok(), Some("http://10.0.0.1:2375".to_string()));
}

#[test]
fn addr_or_path_is_a_stretch_of_the_configured_text() {
    let raw = " \t tcp://10.0.0.2:2375 \r\n";
    let c = conn(DefaultConnectionType::HTTP, Some(raw), None);
    let a = c.addr_or_path().unwrap();
    assert_eq!(a, "tcp://10.0.0.2:2375");
    assert!(raw.contains(a));
}
