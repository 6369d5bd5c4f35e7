use dsh_client::process::{
    kill_plan, log_name, log_record, taskkill_args, KillStep, LineEffect, OutputPipe, Signal,
};
use dsh_client::readiness::extract_port;
use dsh_client::text::decimal_text;

#[test]
fn the_readiness_line_names_the_port() {
    assert_eq!(extract_port("dsh web: http://127.0.0.1:51315 (LAN: http://10.0.0.2:51315)"), Some(51315));
    assert_eq!(extract_port("dsh web: http://127.0.0.1:80"), Some(80));
    assert_eq!(extract_port("[12:00] 启动 dsh web: http://127.0.0.1:8080/"), Some(8080));
}

#[test]
fn other_lines_name_no_port() {
    assert_eq!(extract_port(""), None);
    assert_eq!(extract_port("dsh web"), None);
    assert_eq!(extract_port("dsh web: http://127.0.0.1:"), None);
    assert_eq!(extract_port("dsh web: http://127.0.0.1:x80"), None);
    assert_eq!(extract_port("dsh web: http://localhost:80"), None);
    assert_eq!(extract_port("DSH WEB: http://127.0.0.1:80"), None);
}

#[test]
fn a_port_has_to_fit() {
    assert_eq!(extract_port("dsh web: http://127.0.0.1:0"), Some(0));
    assert_eq!(extract_port("dsh web: http://127.0.0.1:65535"), Some(65535));
    assert_eq!(extract_port("dsh web: http://127.0.0.1:65536"), None);
    assert_eq!(extract_port("dsh web: http://127.0.0.1:99999999999999999999"), None);
    assert_eq!(extract_port("dsh web: http://127.0.0.1:0000000080"), Some(80));
}

#[test]
fn only_the_leftmost_prefix_counts() {
    let line = "dsh web: http://127.0.0.1: dsh web: http://127.0.0.1:80";
    assert_eq!(extract_port(line), None);
    let line = "dsh web: http://127.0.0.1:1 dsh web: http://127.0.0.1:2";
    assert_eq!(extract_port(line), Some(1));
    let line = "dsh web: dsh web: http://127.0.0.1:7";
    assert_eq!(extract_port(line), Some(7));
}

#[test]
fn every_port_is_read_back() {
    for port in 0..=u16::MAX {
        let line = format!("dsh web: http://127.0.0.1:{} (LAN: ...)", decimal_text(port as u64));
        assert_eq!(extract_port(&line), Some(port));
    }
}

#[test]
fn numerals_are_plain_decimal() {
    assert_eq!(decimal_text(0), "0");
    assert_eq!(decimal_text(9), "9");
    assert_eq!(decimal_text(10), "10");
    assert_eq!(decimal_text(1234567890), "1234567890");
    assert_eq!(decimal_text(u64::MAX), "18446744073709551615");
}

/// What a stream of lines adds to the log, and the ports that it reports.
fn piped(watched: bool, raws: &[&[u8]]) -> (Vec<u8>, Vec<u16>) {
    let mut pipe = OutputPipe::new(watched);
    let mut log = Vec::new();
    let mut ports = Vec::new();
    for raw in raws {
        if let Some(effect) = pipe.take_line(raw) {
            log.extend(effect.record);
            ports.extend(effect.port);
        }
    }
    (log, ports)
}

#[test]
fn lines_are_logged_and_the_watched_stream_reports() {
    let line = "dsh web: http://127.0.0.1:4242";
    let mut record = line.as_bytes().to_vec();
    record.push(b'\n');
    assert_eq!(
        OutputPipe::new(true).take_line(line.as_bytes()),
        Some(LineEffect { record: record.clone(), port: Some(4242) })
    );
    assert_eq!(
        OutputPipe::new(false).take_line(line.as_bytes()),
        Some(LineEffect { record, port: None })
    );
    assert_eq!(
        OutputPipe::new(true).take_line("错误\n".as_bytes()),
        Some(LineEffect { record: "错误\n".as_bytes().to_vec(), port: None })
    );
    assert_eq!(log_record(b""), b"\n".to_vec());
}

#[test]
fn line_breaks_are_unified() {
    let (log, _) = piped(true, &[b"a\n", b"b\r\n", b"\n", b"\r\n", b"c\r\r\n", b"d\re\n", b"f\r"]);
    assert_eq!(log, b"a\nb\n\n\nc\r\nd\re\nf\r\n".to_vec());
}

#[test]
fn the_first_port_is_reported_once() {
    let lines: &[&[u8]] = &[
        b"starting\n",
        b"dsh web: http://127.0.0.1:99999\n",
        b"dsh web: http://127.0.0.1:80\r\n",
        b"dsh web: http://127.0.0.1:81\n",
    ];
    let (watched_log, watched_ports) = piped(true, lines);
    let (log, ports) = piped(false, lines);
    assert_eq!(watched_ports, vec![80]);
    assert_eq!(ports, Vec::<u16>::new());
    assert_eq!(watched_log, log);
}

#[test]
fn a_line_that_is_not_utf8_ends_the_stream() {
    for broken in [b"\xff\n".as_slice(), b"ok \xc3\n", b"\xc0\x80\n", b"\xed\xa0\x80\n"] {
        let (log, ports) = piped(
            true,
            &["错\n".as_bytes(), broken, b"later\n", b"dsh web: http://127.0.0.1:80\n"],
        );
        assert_eq!(log, "错\n".as_bytes().to_vec());
        assert_eq!(ports, Vec::<u16>::new());
    }
}

#[test]
fn logs_are_named_by_time() {
    assert_eq!(log_name(0), "dsh-0.log");
    assert_eq!(log_name(1700000000), "dsh-1700000000.log");
}

#[test]
fn a_process_group_is_asked_before_it_is_killed() {
    assert_eq!(
        kill_plan(4321),
        vec![
            KillStep::Send { target: -4321, signal: Signal::Terminate },
            KillStep::Wait { secs: 3 },
            KillStep::Send { target: -4321, signal: Signal::Kill },
        ]
    );
    assert_eq!(kill_plan(0)[0], KillStep::Send { target: 0, signal: Signal::Terminate });
    assert_eq!(kill_plan(u32::MAX)[2], KillStep::Send { target: 1, signal: Signal::Kill });
    assert_eq!(kill_plan(i32::MAX as u32)[2], KillStep::Send { target: -i32::MAX, signal: Signal::Kill });
}

#[test]
fn windows_ends_the_tree() {
    assert_eq!(taskkill_args(4321), vec!["/pid", "4321", "/T", "/F"]);
}
