use matchmaker::rtc_config::{IceServer, RtcConfig, RtcConfigBuilder};

#[test]
fn default_configuration_uses_one_public_stun_server() {
    let config = RtcConfig::default();
    assert_eq!(config.address, "127.0.0.1");
    assert_eq!(config.port, 0);
    assert_eq!(config.user, "");
    assert_eq!(config.password, None);
    assert_eq!(
        config.ice_servers,
        vec![IceServer {
            urls: vec!["stun:stun.stunprotocol.org:3478".to_string()],
            username: String::new(),
            credential: String::new(),
        }]
    );
    assert_eq!(IceServer::default_stun(), config.ice_servers[0]);
}

#[test]
fn builder_sets_each_part() {
    let config = RtcConfigBuilder::new().address("127.0.0.1").port(3657).user("bob").password("bob").build();
    assert_eq!(config.address, "127.0.0.1");
    assert_eq!(config.port, 3657);
    assert_eq!(config.user, "bob");
    assert_eq!(config.password, Some("bob".to_string()));
    assert_eq!(config.ice_servers.len(), 1);

    let turn = IceServer { urls: vec!["turn:example.org".to_string()], username: "u".to_string(), credential: "c".to_string() };
    let config = RtcConfigBuilder::default().ice_servers(vec![]).address("example.org").build();
    assert!(config.ice_servers.is_empty());
    assert_eq!(config.address, "example.org");
    assert_eq!(config.password, None);
    let config = RtcConfigBuilder::new().user("carol").ice_servers(vec![turn]).build();
    assert_eq!(config.ice_servers[0].urls, vec!["turn:example.org".to_string()]);
    assert_eq!(config.user, "carol");
    assert_eq!(config.port, 0);
}

#[test]
fn urls_name_host_port_and_scope() {
    let config = RtcConfigBuilder::new().address("127.0.0.1").port(3657).build();
    assert_eq!(config.base_url(), "ws://127.0.0.1:3657/ws");
    assert_eq!(config.login_url(), "ws://127.0.0.1:3657/ws/login");
    assert_eq!(RtcConfig::default().login_url(), "ws://127.0.0.1:0/ws/login");
    for (port, text) in [(0u16, "0"), (7, "7"), (10, "10"), (80, "80"), (999, "999"), (1000, "1000"), (8080, "8080"), (65535, "65535")] {
        let config = RtcConfigBuilder::new().address("host.example").port(port).build();
        assert_eq!(config.base_url(), format!("ws://host.example:{}/ws", text));
    }
}

#[test]
fn password_is_handed_out_once() {
    let mut config = RtcConfig::default();
    assert_eq!(config.take_password(), None);
    config.set_password("I like Bob");
    assert_eq!(config.password, Some("I like Bob".to_string()));
    assert_eq!(config.take_password(), Some("I like Bob".to_string()));
    assert_eq!(config.take_password(), None);
    assert_eq!(config.address, "127.0.0.1");
}
