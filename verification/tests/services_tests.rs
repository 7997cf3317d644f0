use botapp::modes::{mode_label, RunningMode, TrayEvent};
use botapp::services::{health_url_for, url_has_http_scheme, ServiceMonitor};

#[test]
fn new_monitor_has_standard_services() {
    let monitor = ServiceMonitor::new();
    let api = monitor.get_service("API").unwrap();
    assert_eq!(api.port, 8080);
    assert_eq!(api.url, "http://localhost:8080");
    assert!(!api.running);
    let ui = monitor.get_service("UI").unwrap();
    assert_eq!(ui.port, 3000);
    assert_eq!(ui.url, "http://localhost:3000");
    assert!(!ui.running);
}

#[test]
fn add_service_derives_url_from_port() {
    let mut monitor = ServiceMonitor::new();
    monitor.add_service("DB", 5432);
    let db = monitor.get_service("DB").unwrap();
    assert_eq!(db.port, 5432);
    assert_eq!(db.url, "http://localhost:5432");
    assert!(!db.running);
    monitor.add_service("ZERO", 0);
    assert_eq!(monitor.get_service("ZERO").unwrap().url, "http://localhost:0");
    monitor.add_service("MAX", 65535);
    assert_eq!(monitor.get_service("MAX").unwrap().url, "http://localhost:65535");
}

#[test]
fn get_service_misses_unknown_names() {
    let monitor = ServiceMonitor::new();
    assert!(monitor.get_service("nope").is_none());
}

#[test]
fn recorded_results_drive_aggregates() {
    let mut monitor = ServiceMonitor::new();
    assert!(!monitor.all_running());
    assert!(!monitor.any_running());
    monitor.record_check_results(&vec![true, false]);
    assert!(monitor.any_running());
    assert!(!monitor.all_running());
    assert!(monitor.get_service("API").unwrap().running);
    assert!(!monitor.get_service("UI").unwrap().running);
    monitor.record_check_results(&vec![true, true]);
    assert!(monitor.all_running());
}

#[test]
fn url_scheme_validation() {
    assert!(url_has_http_scheme("http://localhost:8080"));
    assert!(url_has_http_scheme("https://example.test"));
    assert!(!url_has_http_scheme("ftp://example.test"));
    assert!(!url_has_http_scheme("localhost:8080"));
    assert!(!url_has_http_scheme(""));
}

#[test]
fn health_urls() {
    assert_eq!(health_url_for("http://localhost:8080"), "http://localhost:8080/health");
    assert_eq!(health_url_for("http://localhost:8080/"), "http://localhost:8080/health");
    assert_eq!(health_url_for("http://x///"), "http://x/health");
}

#[test]
fn mode_labels() {
    assert_eq!(mode_label(RunningMode::Server), "Server");
    assert_eq!(mode_label(RunningMode::Desktop), "Desktop");
    assert_eq!(mode_label(RunningMode::Client), "Client");
    assert_eq!(RunningMode::Desktop, RunningMode::Desktop);
    assert!(matches!(TrayEvent::Quit, TrayEvent::Quit));
}
