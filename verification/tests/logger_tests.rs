use doay_core::args::{is_quiet_mode, parse_args};
use doay_core::dirs::{
    get_app_data_dir, get_doay_app_dir_str, get_doay_conf_dir, get_doay_logs_dir,
    get_doay_ray_dir, get_doay_web_server_dir, join_path, text_file_path_allowed,
};
use doay_core::logger::{
    default_log_config, format_log_line, get_level_rank, get_log_config, level_str,
    local_timestamp, set_log_level, set_log_max_size, should_write_log, str_eq_ci, LogLevel,
};
use doay_core::setting;
use doay_core::setup;
use doay_core::config::Config;

#[test]
fn level_names() {
    assert_eq!(level_str(LogLevel::Off), "none");
    assert_eq!(level_str(LogLevel::Error), "error");
    assert_eq!(level_str(LogLevel::Warn), "warn");
    assert_eq!(level_str(LogLevel::Info), "info");
    assert_eq!(level_str(LogLevel::Debug), "debug");
    assert_eq!(level_str(LogLevel::Trace), "trace");
}

#[test]
fn level_parsing_is_case_insensitive() {
    let mut cfg = default_log_config();
    assert!(matches!(cfg.log_level, LogLevel::Trace));
    set_log_level(&mut cfg, "ERROR");
    assert!(matches!(cfg.log_level, LogLevel::Error));
    set_log_level(&mut cfg, "Info");
    assert!(matches!(cfg.log_level, LogLevel::Info));
    set_log_level(&mut cfg, "whatever");
    assert!(matches!(cfg.log_level, LogLevel::Off));
    assert!(str_eq_ci("WaRn", "warn"));
    assert!(!str_eq_ci("warn", "warne"));
}

#[test]
fn log_config_copy_and_max_size() {
    let mut cfg = default_log_config();
    assert_eq!(cfg.log_max_size, 5 * 1024 * 1024);
    set_log_max_size(&mut cfg, 2 * 1024 * 1024);
    assert_eq!(cfg.log_max_size, 2 * 1024 * 1024);
    cfg.log_filepath = Some("/data/doay/logs/doay.log".to_string());
    let copy = get_log_config(&cfg);
    assert_eq!(copy.log_max_size, 2 * 1024 * 1024);
    assert_eq!(copy.log_filepath.as_deref(), Some("/data/doay/logs/doay.log"));
}

#[test]
fn level_ranks_order_records() {
    assert_eq!(get_level_rank("none"), 0);
    assert_eq!(get_level_rank("ERROR"), 1);
    assert_eq!(get_level_rank("warn"), 2);
    assert_eq!(get_level_rank("info"), 3);
    assert_eq!(get_level_rank("debug"), 4);
    assert_eq!(get_level_rank("trace"), 5);
    assert_eq!(get_level_rank("unknown"), 3);
    assert!(should_write_log("error", "info"));
    assert!(!should_write_log("trace", "info"));
}

#[test]
fn log_line_layout() {
    let line = format_log_line("2025-01-02 03:04:05", "ERROR", "boom");
    assert_eq!(line, "2025-01-02 03:04:05 [ERROR] boom\n");
    // the clock-dependent wrapper produces something timestamp-shaped
    let ts = local_timestamp();
    assert_eq!(ts.len(), 19);
}

#[test]
fn quiet_mode_argument() {
    let quiet = parse_args(&vec!["doay".to_string(), "-s".to_string(), "quiet".to_string()]);
    assert!(is_quiet_mode(&quiet));
    let normal = parse_args(&vec!["doay".to_string()]);
    assert!(!is_quiet_mode(&normal));
    let wrong = parse_args(&vec!["doay".to_string(), "-s".to_string(), "loud".to_string()]);
    assert!(!is_quiet_mode(&wrong));
}

#[test]
fn app_directories() {
    let data = Some("/home/u/.local/share".to_string());
    assert_eq!(get_app_data_dir(&data).unwrap(), "/home/u/.local/share/doay");
    assert_eq!(get_doay_app_dir_str(&data), "/home/u/.local/share/doay");
    assert_eq!(get_doay_conf_dir(&data).unwrap(), "/home/u/.local/share/doay/conf");
    assert_eq!(get_doay_logs_dir(&data).unwrap(), "/home/u/.local/share/doay/logs");
    assert_eq!(
        get_doay_web_server_dir(&data).unwrap(),
        "/home/u/.local/share/doay/web_server"
    );
    assert_eq!(get_doay_ray_dir(&data).unwrap(), "/home/u/.local/share/doay/ray");
    assert!(get_app_data_dir(&None).is_none());
    assert_eq!(get_doay_app_dir_str(&None), "");
    assert_eq!(join_path("a", "b"), "a/b");
}

#[test]
fn ray_resource_dir_fallback() {
    assert_eq!(setup::get_doay_ray_dir(&Some("/opt/doay/ray".to_string())), "/opt/doay/ray");
    assert_eq!(setup::get_doay_ray_dir(&None), "./ray");
}

#[test]
fn text_file_paths() {
    assert!(text_file_path_allowed("/data/doay/web_server/proxy.js"));
    assert!(!text_file_path_allowed("../etc/passwd"));
    assert!(!text_file_path_allowed("a/../../b"));
    assert!(!text_file_path_allowed("..\\windows\\system32"));
}

#[test]
fn settings_combine_save_and_effects() {
    let mut c = Config::default();
    assert!(setting::set_app_log_level(&mut c, "debug", true));
    assert_eq!(c.app_log_level, "debug");
    assert!(!setting::set_app_log_level(&mut c, "warn", false));
    assert_eq!(c.app_log_level, "warn"); // the snapshot changes even when the save fails

    assert!(setting::set_web_server_enable(&mut c, false, true));
    assert!(!c.web_server_enable);
    assert!(setting::set_web_server_host(&mut c, "0.0.0.0", true));
    assert!(setting::set_web_server_port(&mut c, 9000, true));

    // the follow-up runs only after a successful save, and its failure fails
    // the whole change
    assert!(setting::set_ray_enable(&mut c, true, true, Some(true)));
    assert!(c.ray_enable);
    assert!(!setting::set_ray_enable(&mut c, false, true, Some(false)));
    assert!(!setting::set_ray_enable(&mut c, true, false, None));

    assert!(setting::set_ray_host(&mut c, "10.0.0.1", true, Some(true)));
    assert_eq!(c.ray_host, "10.0.0.1");
    assert!(!setting::set_ray_socks_port(&mut c, 1080, true, Some(false)));
    assert_eq!(c.ray_socks_port, 1080);
    assert!(setting::set_ray_http_port(&mut c, 8118, true, Some(true)));

    assert!(setting::set_auto_setup_pac(&mut c, true, true, Some(true)));
    assert!(c.auto_setup_pac);
    assert!(!setting::set_auto_setup_socks(&mut c, false, false, None));
    assert!(!c.auto_setup_socks);
    assert!(setting::set_auto_setup_http(&mut c, true, true, Some(true)));
    assert!(!setting::set_auto_setup_https(&mut c, true, true, Some(false)));
    assert!(c.auto_setup_https);
}
