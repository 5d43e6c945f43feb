use homelab_helper::bundle::{full_check_plan, Probe};
use homelab_helper::http::{contains_text, curl_args, first_line, http_report, status_line};
use homelab_helper::ping::ping_args;
use homelab_helper::port::{
    port_probe, port_verdict, socket_addr_text, ConnectAttempt, PortCheckError, PortStatus,
};
use homelab_helper::scan::{scan_plan, scan_ports};
use homelab_helper::text::decimal_text;

#[test]
fn decimal_text_writes_numbers() {
    assert_eq!(decimal_text(0), "0");
    assert_eq!(decimal_text(7), "7");
    assert_eq!(decimal_text(10), "10");
    assert_eq!(decimal_text(65535), "65535");
    assert_eq!(decimal_text(u64::MAX), "18446744073709551615");
}

#[test]
fn socket_addr_joins_host_and_port() {
    assert_eq!(socket_addr_text("127.0.0.1", 8080), "127.0.0.1:8080");
    assert_eq!(socket_addr_text("example.invalid", 9999), "example.invalid:9999");
    assert_eq!(socket_addr_text("h", 0), "h:0");
    assert_eq!(port_probe("10.0.0.1", 22, 800).addr_text(), "10.0.0.1:22");
}

#[test]
fn port_verdict_collapses_failures() {
    assert_eq!(port_verdict(Some(ConnectAttempt::Connected)), Ok(PortStatus::Open));
    assert_eq!(port_verdict(Some(ConnectAttempt::Failed)), Ok(PortStatus::Closed));
    assert_eq!(port_verdict(None), Err(PortCheckError::AddressParse));
}

#[test]
fn port_status_labels() {
    assert_eq!(PortStatus::Open.label(), "OPEN");
    assert_eq!(PortStatus::Closed.label(), "CLOSED");
}

#[test]
fn scan_of_reversed_range_is_empty() {
    assert!(scan_ports(10, 5).is_empty());
    assert!(scan_plan("localhost", 10, 5, 500).is_empty());
}

#[test]
fn scan_of_single_port_is_one_direct_check() {
    assert_eq!(scan_ports(80, 80), vec![80]);
    let plan = scan_plan("localhost", 80, 80, 500);
    let direct = port_probe("localhost", 80, 500);
    assert_eq!(plan.len(), 1);
    assert_eq!(plan[0].host, direct.host);
    assert_eq!(plan[0].port, direct.port);
    assert_eq!(plan[0].timeout_ms, direct.timeout_ms);
}

#[test]
fn scan_covers_range_in_order() {
    assert_eq!(scan_ports(20, 23), vec![20, 21, 22, 23]);
    assert_eq!(scan_ports(65534, 65535), vec![65534, 65535]);
    assert_eq!(scan_ports(0, 0), vec![0]);
    let plan = scan_plan("h", 1, 3, 200);
    let ports: Vec<u16> = plan.iter().map(|p| p.port).collect();
    assert_eq!(ports, vec![1, 2, 3]);
    assert!(plan.iter().all(|p| p.host == "h" && p.timeout_ms == 200));
}

#[test]
fn first_line_follows_lines() {
    assert_eq!(first_line(""), None);
    assert_eq!(first_line("abc"), Some("abc".to_string()));
    assert_eq!(
        first_line("HTTP/1.1 200 OK\r\nServer: x\r\n"),
        Some("HTTP/1.1 200 OK".to_string())
    );
    assert_eq!(first_line("a\nb"), Some("a".to_string()));
    assert_eq!(first_line("\nb"), Some(String::new()));
    assert_eq!(first_line("a\r"), Some("a\r".to_string()));
    assert_eq!(first_line("\r\n"), Some(String::new()));
}

#[test]
fn contains_text_finds_runs() {
    assert!(contains_text("HTTP/1.1 200 OK", "200 OK"));
    assert!(contains_text("abc", ""));
    assert!(contains_text("abc", "abc"));
    assert!(!contains_text("ab", "abc"));
    assert!(!contains_text("HTTP/1.1 200 Ok", "200 OK"));
    assert!(contains_text("xx200 OKyy", "200 OK"));
}

#[test]
fn http_check_200_ok_succeeds() {
    let r = http_report("HTTP/1.1 200 OK\r\nContent-Type: text/html\r\n\r\n");
    assert_eq!(r.status_line, "HTTP/1.1 200 OK");
    assert!(r.ok);
}

#[test]
fn http_check_404_fails() {
    let r = http_report("HTTP/1.1 404 Not Found\r\nServer: x\r\n");
    assert_eq!(r.status_line, "HTTP/1.1 404 Not Found");
    assert!(!r.ok);
}

#[test]
fn http_check_other_phrasings_fail() {
    assert!(!http_report("HTTP/2 200\r\n").ok);
    assert!(!http_report("HTTP/1.1 301 Moved\r\nX: 200 OK\r\n").ok);
}

#[test]
fn http_check_without_output_reports_no_response() {
    let r = http_report("");
    assert_eq!(r.status_line, "NO RESPONSE");
    assert!(!r.ok);
    assert_eq!(status_line(""), "NO RESPONSE");
}

#[test]
fn curl_args_truncate_timeout_to_seconds() {
    assert_eq!(
        curl_args("http://192.168.2.51", 1500),
        vec!["-I", "--max-time", "1", "http://192.168.2.51"]
    );
    assert_eq!(curl_args("u", 999), vec!["-I", "--max-time", "0", "u"]);
    assert_eq!(curl_args("u", 2000), vec!["-I", "--max-time", "2", "u"]);
}

#[test]
fn ping_args_pass_count_and_host() {
    assert_eq!(ping_args("192.168.1.1", 3), vec!["-c", "3", "192.168.1.1"]);
    assert_eq!(ping_args("h", 255), vec!["-c", "255", "h"]);
}

#[test]
fn full_check_runs_every_stage_in_order() {
    let plan = full_check_plan("example.com");
    assert_eq!(plan.len(), 7);
    let stages: Vec<u8> = plan.iter().map(|p| p.stage()).collect();
    assert_eq!(stages, vec![1, 2, 3, 3, 3, 4, 4]);
    match &plan[0] {
        Probe::Resolve { host } => assert_eq!(host, "example.com"),
        other => panic!("unexpected step {:?}", other),
    }
    match &plan[1] {
        Probe::Ping { host, count } => {
            assert_eq!(host, "example.com");
            assert_eq!(*count, 3);
        }
        other => panic!("unexpected step {:?}", other),
    }
    let ports: Vec<(u16, u64)> = plan
        .iter()
        .filter_map(|p| match p {
            Probe::Port(q) => Some((q.port, q.timeout_ms)),
            _ => None,
        })
        .collect();
    assert_eq!(ports, vec![(22, 800), (80, 800), (443, 800)]);
    let urls: Vec<(String, u64)> = plan
        .iter()
        .filter_map(|p| match p {
            Probe::Http { url, timeout_ms } => Some((url.clone(), *timeout_ms)),
            _ => None,
        })
        .collect();
    assert_eq!(
        urls,
        vec![
            ("http://example.com".to_string(), 1500),
            ("https://example.com".to_string(), 1500)
        ]
    );
}
