use splinter_store::daemon::config_file::get_config_file;
use splinter_store::daemon::config_file::ConfigFileLocation;
use splinter_store::daemon::endpoints::check_network_endpoints;
use splinter_store::daemon::endpoints::check_state_dir;
use splinter_store::daemon::endpoints::display_name;
use splinter_store::daemon::endpoints::endpoint_uses_tls;
use splinter_store::daemon::error::UserError;
use splinter_store::daemon::keys::choose_token_key;
use splinter_store::daemon::keys::classify_key_file;
use splinter_store::daemon::keys::KeyAction;
use splinter_store::daemon::keys::KeyFileName;
use splinter_store::daemon::keys::TokenKey;
use splinter_store::daemon::logging::get_log_filter_level;
use splinter_store::daemon::logging::LogLevel;
use splinter_store::daemon::metrics::metrics_settings;
use splinter_store::daemon::metrics::MetricsSettings;
use splinter_store::daemon::node_id::generate_node_id;
use splinter_store::daemon::node_id::node_id_from_file;
use splinter_store::daemon::node_id::node_id_from_number;
use splinter_store::daemon::node_id::reconcile_node_id;
use splinter_store::daemon::node_id::NodeIdDecision;
use splinter_store::daemon::node_id::NodeIdOrigin;
use splinter_store::error::InternalError;

fn texts(list: &[&str]) -> Vec<String> {
    list.iter().map(|text| text.to_string()).collect()
}

fn file(stem: Option<&str>, extension: Option<&str>) -> KeyFileName {
    KeyFileName {
        stem: stem.map(|s| s.to_string()),
        extension: extension.map(|s| s.to_string()),
    }
}

#[test]
fn log_level_rises_with_each_verbose_flag() {
    assert_eq!(get_log_filter_level(0), LogLevel::Warn);
    assert_eq!(get_log_filter_level(1), LogLevel::Info);
    assert_eq!(get_log_filter_level(2), LogLevel::Debug);
    assert_eq!(get_log_filter_level(3), LogLevel::Trace);
    assert_eq!(get_log_filter_level(4), LogLevel::Trace);
    assert_eq!(get_log_filter_level(u64::MAX), LogLevel::Trace);
}

#[test]
fn config_file_is_looked_for_in_order() {
    assert_eq!(
        get_config_file(Some("/tmp/my.toml"), Some("/conf"), Some("/home/splinter")),
        ConfigFileLocation { base: "/tmp/my.toml".to_string(), components: vec![] }
    );
    assert_eq!(
        get_config_file(None, Some("/conf"), Some("/home/splinter")),
        ConfigFileLocation { base: "/conf".to_string(), components: texts(&["splinterd.toml"]) }
    );
    assert_eq!(
        get_config_file(None, None, Some("/home/splinter")),
        ConfigFileLocation {
            base: "/home/splinter".to_string(),
            components: texts(&["conf", "splinterd.toml"]),
        }
    );
    assert_eq!(
        get_config_file(None, None, None),
        ConfigFileLocation { base: "/etc/splinter/splinterd.toml".to_string(), components: vec![] }
    );
    assert_eq!(
        get_config_file(Some(""), None, None),
        ConfigFileLocation { base: "".to_string(), components: vec![] }
    );
}

#[test]
fn tls_endpoints_are_recognised_by_their_scheme() {
    assert!(endpoint_uses_tls("tcps://127.0.0.1:8044"));
    assert!(endpoint_uses_tls("tcps://"));
    assert!(!endpoint_uses_tls("tcp://127.0.0.1:8044"));
    assert!(!endpoint_uses_tls("tcps:/"));
    assert!(!endpoint_uses_tls(""));
    assert!(!endpoint_uses_tls("TCPS://host:1"));
    assert!(!endpoint_uses_tls(" tcps://host:1"));
    assert!(!endpoint_uses_tls("ééééééé"));
    assert!(endpoint_uses_tls("tcps://é"));
}

#[test]
fn tls_endpoint_without_tls_is_an_invalid_argument() {
    let endpoints = texts(&["tcp://a:1", "tcps://b:2", "tcps://c:3"]);
    assert_eq!(
        check_network_endpoints(true, &endpoints),
        Err(UserError::InvalidArgument(
            "TLS is disabled, thus endpoint tcps://b:2 is invalid".to_string()
        ))
    );
    assert_eq!(check_network_endpoints(false, &endpoints), Ok(()));
    assert_eq!(check_network_endpoints(true, &texts(&["tcp://a:1", "inproc://x"])), Ok(()));
    assert_eq!(check_network_endpoints(true, &vec![]), Ok(()));
}

#[test]
fn state_directory_has_to_be_there() {
    assert_eq!(check_state_dir("/var/lib/splinter", true), Ok(()));
    assert_eq!(
        check_state_dir("/var/lib/splinter", false),
        Err(UserError::DaemonError {
            context: "state directory /var/lib/splinter does not exist".to_string()
        })
    );
}

#[test]
fn display_name_defaults_to_the_node_id() {
    assert_eq!(display_name(Some("Alpha"), "n123"), "Alpha");
    assert_eq!(display_name(None, "n123"), "Node n123");
    assert_eq!(display_name(Some(""), "n123"), "");
}

#[test]
fn metrics_need_all_four_settings_or_none() {
    assert_eq!(metrics_settings(None, None, None, None), Ok(None));
    assert_eq!(
        metrics_settings(Some("db"), Some("http://influx"), Some("user"), Some("pw")),
        Ok(Some(MetricsSettings {
            db: "db".to_string(),
            url: "http://influx".to_string(),
            username: "user".to_string(),
            password: "pw".to_string(),
        }))
    );
    assert_eq!(
        metrics_settings(None, Some("http://influx"), Some("user"), Some("pw")),
        Err(UserError::MissingArgument("missing metrics db provider configuration".to_string()))
    );
    assert_eq!(
        metrics_settings(Some("db"), None, None, Some("pw")),
        Err(UserError::MissingArgument("missing metrics url provider configuration".to_string()))
    );
    assert_eq!(
        metrics_settings(Some("db"), Some("http://influx"), None, None),
        Err(UserError::MissingArgument(
            "missing metrics username provider configuration".to_string()
        ))
    );
    assert_eq!(
        metrics_settings(Some("db"), Some("http://influx"), Some("user"), None),
        Err(UserError::MissingArgument(
            "missing metrics password provider configuration".to_string()
        ))
    );
    assert_eq!(
        metrics_settings(None, None, None, Some("pw")),
        Err(UserError::MissingArgument("missing metrics db provider configuration".to_string()))
    );
}

#[test]
fn stored_node_id_stands() {
    for origin in [NodeIdOrigin::Database, NodeIdOrigin::File] {
        assert_eq!(
            reconcile_node_id(origin, Some("n1"), Some("n1")),
            Ok(NodeIdDecision::Keep("n1".to_string()))
        );
        assert_eq!(
            reconcile_node_id(origin, Some("n1"), None),
            Ok(NodeIdDecision::Keep("n1".to_string()))
        );
        assert_eq!(
            reconcile_node_id(origin, None, Some("n2")),
            Ok(NodeIdDecision::Save("n2".to_string()))
        );
        assert_eq!(reconcile_node_id(origin, None, None), Ok(NodeIdDecision::Generate));
    }
}

#[test]
fn configured_node_id_has_to_match_the_stored_one() {
    assert_eq!(
        reconcile_node_id(NodeIdOrigin::Database, Some("n1"), Some("n2")),
        Err(UserError::InvalidArgument(
            "node_id from database n1 does not match node_id from config n2".to_string()
        ))
    );
    assert_eq!(
        reconcile_node_id(NodeIdOrigin::File, Some("n1"), Some("N1")),
        Err(UserError::InvalidArgument(
            "node_id from file n1 does not match node_id from config N1".to_string()
        ))
    );
}

#[test]
fn generated_node_id_is_n_and_a_number() {
    assert_eq!(node_id_from_number(0), "n0");
    assert_eq!(node_id_from_number(7), "n7");
    assert_eq!(node_id_from_number(1234), "n1234");
    assert_eq!(node_id_from_number(u16::MAX), "n65535");
    for _ in 0..50 {
        let node_id = generate_node_id();
        assert!(node_id.starts_with('n'));
        let number: u16 = node_id[1..].parse().unwrap();
        assert_eq!(node_id, format!("n{}", number));
    }
}

#[test]
fn node_id_file_loses_one_trailing_line_feed() {
    assert_eq!(node_id_from_file("n123\n"), "n123");
    assert_eq!(node_id_from_file("n123"), "n123");
    assert_eq!(node_id_from_file("n123\n\n"), "n123\n");
    assert_eq!(node_id_from_file("\n"), "");
    assert_eq!(node_id_from_file(""), "");
    assert_eq!(node_id_from_file("n123\r\n"), "n123\r");
    assert_eq!(node_id_from_file("nœud\n"), "nœud");
    assert_eq!(node_id_from_file("\nn1"), "\nn1");
}

#[test]
fn key_files_are_told_apart_by_extension_and_stem() {
    assert_eq!(
        classify_key_file(&file(Some("splinterd"), Some("priv")), "splinterd"),
        Ok(KeyAction::LoadPeeringKey)
    );
    assert_eq!(
        classify_key_file(&file(Some("other"), Some("priv")), "splinterd"),
        Ok(KeyAction::LoadKey)
    );
    assert_eq!(
        classify_key_file(&file(None, Some("priv")), "splinterd"),
        Ok(KeyAction::LoadKey)
    );
    assert_eq!(
        classify_key_file(&file(Some("splinterd"), Some("pub")), "splinterd"),
        Ok(KeyAction::Skip)
    );
    assert_eq!(
        classify_key_file(&file(Some("notes"), None), "splinterd"),
        Ok(KeyAction::Skip)
    );
    assert_eq!(
        classify_key_file(&file(Some("splinterd"), Some("PRIV")), "splinterd"),
        Ok(KeyAction::Skip)
    );
    assert_eq!(
        classify_key_file(&file(None, None), "splinterd"),
        Err(UserError::InternalError(InternalError::with_message(
            "Unable to get file name".to_string()
        )))
    );
    assert_eq!(
        classify_key_file(&file(None, Some("pub")), "splinterd"),
        Err(UserError::InternalError(InternalError::with_message(
            "Unable to get file name".to_string()
        )))
    );
}

#[test]
fn peer_token_comes_from_the_peering_key_or_the_only_key() {
    assert_eq!(choose_token_key(1, true, "splinterd"), Ok(TokenKey::Peering));
    assert_eq!(choose_token_key(5, true, "splinterd"), Ok(TokenKey::Peering));
    assert_eq!(choose_token_key(1, false, "splinterd"), Ok(TokenKey::Only));
    assert_eq!(
        choose_token_key(0, false, "splinterd"),
        Err(UserError::InternalError(InternalError::with_message(
            "Must have a signing key for challenge authorization, run the `splinter keygen --system` command to generate a key for the daemon"
                .to_string()
        )))
    );
    assert!(choose_token_key(0, true, "splinterd").is_err());
    assert_eq!(
        choose_token_key(2, false, "splinterd"),
        Err(UserError::InternalError(InternalError::with_message(
            "Unable to decide which key to use for required authorization for provided peers. Peering key splinterd was not found and there are more then one configured signing key"
                .to_string()
        )))
    );
}
