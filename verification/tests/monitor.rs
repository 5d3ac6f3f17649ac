use wa_judge::monitor::types::{MonitorErrorKind as Kind, Target};
use wa_judge::monitor::{decode_wait_status, target_status, timeval_micros, MonitorErrorKind};

#[test]
fn error_codes_roundtrip() {
    let all = [
        Kind::Unknown,
        Kind::PipeError,
        Kind::ForkError,
        Kind::PipeReadError,
        Kind::Wait4Error,
        Kind::ChildError,
        Kind::FifoError,
        Kind::ThreadError,
        Kind::ExecvpError,
    ];
    for k in all.iter() {
        assert_eq!(Kind::from_i32(k.code()), Some(*k));
    }
    assert_eq!(Kind::ExecvpError.code(), 42);
    assert_eq!(Kind::from_i32(0), None);
    assert_eq!(Kind::from_i32(9), None);
    assert_eq!(MonitorErrorKind::PipeError.code(), 2);
    assert_eq!(MonitorErrorKind::ExecvpError.code(), 7);
}

#[test]
fn wait_status_decoding() {
    assert_eq!(decode_wait_status(0), (Some(0), None));
    assert_eq!(decode_wait_status(0x0100), (Some(1), None));
    assert_eq!(decode_wait_status(42 << 8), (Some(42), None));
    assert_eq!(decode_wait_status(9), (None, Some(9)));
    assert_eq!(decode_wait_status(0x80 | 11), (None, Some(11)));
}

#[test]
fn resource_usage() {
    assert_eq!(timeval_micros(2, 500), 2_000_500);
    let s = target_status(3 << 8, 77, 1, 250_000, 0, 10, 4096);
    assert_eq!(s.code, Some(3));
    assert_eq!(s.signal, None);
    assert_eq!(s.real_time, 77);
    assert_eq!(s.user_time, 1_250_000);
    assert_eq!(s.sys_time, 10);
    assert_eq!(s.memory, 4096);
}

#[test]
fn argument_vector() {
    let t = Target {
        bin: String::from("ls"),
        args: vec![String::from("-l"), String::from("/")],
        stdin: None,
        stdout: None,
        stderr: None,
    };
    assert_eq!(t.argv(), vec!["ls", "-l", "/"]);
}
