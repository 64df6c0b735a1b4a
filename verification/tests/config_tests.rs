use doay_core::config::{
    get_conf_path, get_config, init, set_auto_setup_http, set_auto_setup_https, set_auto_setup_pac,
    set_auto_setup_socks, set_ray_enable, set_ray_host, set_ray_http_port, set_ray_socks_port,
    set_app_log_level, set_web_server_enable, set_web_server_host, set_web_server_port,
    speed_test_filename_ok, Config,
};

fn default_config() -> Config {
    Config::default()
}

#[test]
fn default_config_values() {
    let c = default_config();
    assert_eq!(c.app_log_level, "info");
    assert!(c.web_server_enable);
    assert_eq!(c.web_server_host, "127.0.0.1");
    assert_eq!(c.web_server_port, 18687);
    assert!(!c.ray_enable);
    assert_eq!(c.ray_host, "127.0.0.1");
    assert_eq!(c.ray_socks_port, 1086);
    assert_eq!(c.ray_http_port, 1089);
    assert!(!c.auto_setup_pac);
    assert!(c.auto_setup_socks);
    assert!(!c.auto_setup_http);
    assert!(!c.auto_setup_https);
}

#[test]
fn init_uses_loaded_config() {
    let mut loaded = default_config();
    loaded.ray_enable = true;
    loaded.ray_socks_port = 2000;
    let c = init(Some(loaded));
    assert!(c.ray_enable);
    assert_eq!(c.ray_socks_port, 2000);
    let d = init(None);
    assert!(!d.ray_enable);
    assert_eq!(d.web_server_port, 18687);
}

#[test]
fn get_config_copies_every_field() {
    let mut c = default_config();
    c.ray_host = "10.0.0.1".to_string();
    c.auto_setup_https = true;
    let copy = get_config(&c);
    assert_eq!(copy.ray_host, "10.0.0.1");
    assert!(copy.auto_setup_https);
    assert_eq!(copy.web_server_host, c.web_server_host);
}

#[test]
fn setters_change_exactly_one_field() {
    let mut c = default_config();
    set_app_log_level(&mut c, "debug");
    assert_eq!(c.app_log_level, "debug");
    set_web_server_enable(&mut c, false);
    assert!(!c.web_server_enable);
    set_web_server_host(&mut c, "0.0.0.0");
    assert_eq!(c.web_server_host, "0.0.0.0");
    set_web_server_port(&mut c, 8080);
    assert_eq!(c.web_server_port, 8080);
    set_ray_enable(&mut c, true);
    assert!(c.ray_enable);
    set_ray_host(&mut c, "192.168.1.2");
    assert_eq!(c.ray_host, "192.168.1.2");
    set_ray_socks_port(&mut c, 1080);
    assert_eq!(c.ray_socks_port, 1080);
    set_ray_http_port(&mut c, 8118);
    assert_eq!(c.ray_http_port, 8118);
    set_auto_setup_pac(&mut c, true);
    assert!(c.auto_setup_pac);
    set_auto_setup_socks(&mut c, false);
    assert!(!c.auto_setup_socks);
    set_auto_setup_http(&mut c, true);
    assert!(c.auto_setup_http);
    set_auto_setup_https(&mut c, true);
    assert!(c.auto_setup_https);
    // fields not named by the last setter kept their values
    assert_eq!(c.app_log_level, "debug");
    assert_eq!(c.web_server_port, 8080);
    assert_eq!(c.ray_host, "192.168.1.2");
}

#[test]
fn conf_path_of_allowed_file() {
    let r = get_conf_path("/data/doay/conf", "server.json");
    assert_eq!(r.unwrap(), "/data/doay/conf/server.json");
}

#[test]
fn conf_path_rejects_unknown_file() {
    let r = get_conf_path("/data/doay/conf", "evil.json");
    assert_eq!(r.unwrap_err(), "Filename 'evil.json' is not allowed");
    let r2 = get_conf_path("/data/doay/conf", "../server.json");
    assert!(r2.is_err());
}

#[test]
fn speed_test_filenames() {
    assert!(speed_test_filename_ok("speed_test-1.json"));
    assert!(speed_test_filename_ok("A.b_C-9"));
    assert!(!speed_test_filename_ok(""));
    assert!(!speed_test_filename_ok("a/b.json"));
    assert!(!speed_test_filename_ok("a b.json"));
}
