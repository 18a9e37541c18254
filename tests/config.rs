use webxash3d_metamod::{
    ActivateStep, Lifecycle, MetaResult, PluginConfig, PluginLoadTime, PluginLogLevel,
    PluginUnloadReason, Server,
    DEFAULT_PORT,
};

#[test]
fn default_config() {
    let c = PluginConfig::default();
    assert_eq!(c.http_port, 27015);
    assert_eq!(c.game_port, 27015);
    assert_eq!(c.public_ip, None);
    assert_eq!(DEFAULT_PORT, 27015);
    assert_eq!(c.game_server_addr(), "127.0.0.1:27015");
}

#[test]
fn game_server_addresses() {
    let mut c = PluginConfig::default();
    c.game_port = 0;
    assert_eq!(c.game_server_addr(), "127.0.0.1:0");
    c.game_port = 65535;
    assert_eq!(c.game_server_addr(), "127.0.0.1:65535");
    c.game_port = 8;
    assert_eq!(c.game_server_addr(), "127.0.0.1:8");
}

#[test]
fn server_keeps_config() {
    let mut c = PluginConfig::default();
    c.http_port = 8080;
    c.public_ip = Some("203.0.113.7".to_string());
    let s = Server::new(c);
    assert_eq!(s.config().http_port, 8080);
    assert_eq!(s.config().public_ip.as_deref(), Some("203.0.113.7"));
}

#[test]
fn host_codes() {
    assert_eq!(PluginLoadTime::Startup.code(), 1);
    assert_eq!(PluginLoadTime::Anypause.code(), 4);
    assert_eq!(PluginLoadTime::from_code(2), Some(PluginLoadTime::Changelevel));
    assert_eq!(PluginLoadTime::from_code(5), None);
    assert_eq!(PluginUnloadReason::from_code(7), Some(PluginUnloadReason::Reload));
    assert_eq!(PluginUnloadReason::from_code(-1), None);
    assert_eq!(PluginUnloadReason::CmdForced.code(), 4);
    assert_eq!(MetaResult::from_code(4), Some(MetaResult::Supercede));
    assert_eq!(MetaResult::Ignored.code(), 1);
    assert_eq!(MetaResult::from_code(9), None);
    assert_eq!(PluginLogLevel::Debug.code(), 2);
}

#[test]
fn lifecycle_starts_once_and_stops_once() {
    let mut l = Lifecycle::new();
    assert!(!l.is_running());
    assert_eq!(l.on_server_activate(), ActivateStep::Start);
    assert!(l.should_start());
    l.start_finished(false);
    assert!(!l.is_running());
    l.start_finished(true);
    assert!(l.is_running());
    assert!(!l.should_start());
    assert_eq!(l.on_server_activate(), ActivateStep::ReloadConfig);
    assert!(l.stop());
    assert!(!l.stop());
    assert!(!l.is_running());
}
