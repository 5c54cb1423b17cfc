use mimo_bridge::{
    mimo_host, upstream_timeout, ClientConfig, MIMO_HOST, PATH_CHAT, PATH_MCP_STREAMABLE,
    PATH_QUOTA, PATH_RESPONSES,
};

#[test]
fn host_can_be_overridden() {
    assert_eq!(mimo_host(None), "https://api.miclaw.xiaomi.net");
    assert_eq!(mimo_host(None), MIMO_HOST);
    assert_eq!(mimo_host(Some("http://127.0.0.1:9".into())), "http://127.0.0.1:9");
    assert_eq!(mimo_host(Some(String::new())), "");
}

#[test]
fn timeout_is_ten_minutes_unless_set() {
    assert_eq!(upstream_timeout(None), 600);
    assert_eq!(upstream_timeout(Some("45")), 45);
    assert_eq!(upstream_timeout(Some("+45")), 45);
    assert_eq!(upstream_timeout(Some("007")), 7);
    assert_eq!(upstream_timeout(Some("18446744073709551615")), u64::MAX);
    for setting in ["1", "+1", "600", "00600", "18446744073709551615"] {
        assert_eq!(Ok(upstream_timeout(Some(setting))), setting.parse::<u64>());
    }
}

#[test]
fn unusable_timeout_falls_back() {
    for setting in [
        "", "0", "00", "+", "++1", "-1", " 45", "45 ", "4_5", "45s", "1.5", "٤",
        "18446744073709551616", "99999999999999999999999",
    ] {
        assert_eq!(upstream_timeout(Some(setting)), 600, "{setting:?}");
        assert_eq!(
            setting.parse::<u64>().ok().filter(|&secs| secs > 0),
            None,
            "{setting:?}"
        );
    }
}

#[test]
fn connections_are_kept_as_set() {
    let config = ClientConfig::new(Some("30"));
    assert_eq!(
        config,
        ClientConfig {
            gzip: true,
            connect_timeout_secs: 10,
            timeout_secs: 30,
            tcp_keepalive_secs: 60,
            pool_idle_timeout_secs: 90,
            pool_max_idle_per_host: 8,
        }
    );
    let config = ClientConfig::new(None);
    assert!(config.connect_timeout_secs < config.timeout_secs);
}

#[test]
fn llm_paths_carry_the_billing_parameters() {
    for path in [PATH_CHAT, PATH_RESPONSES] {
        assert!(path.starts_with("/osbot/pc/llm/v2/"));
        assert!(path.ends_with("?bizId=xiaoai_pc&featureId=common&isFirstQuery=false"));
    }
    assert_eq!(PATH_QUOTA, "/osbot/pc/user/v2/status?bizId=xiaoai_pc&featureId=common");
    for path in [PATH_CHAT, PATH_RESPONSES, PATH_QUOTA] {
        assert_ne!(path, PATH_MCP_STREAMABLE);
    }
}
