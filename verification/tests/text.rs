use wa_judge::server2::lang::{CompileResult, Gcc};
use wa_judge::server2::lang::helper::parse_status;
use wa_judge::server2::sandbox::Limit;
use wa_judge::server2::threads::worker::cases;
use wa_judge::monitor::types::TargetStatus;
use wa_judge::server::types::judge::JudgeStatus;
use wa_judge::text::{dashed, decimal_string, join_path};

#[test]
fn decimal_numerals() {
    assert_eq!(decimal_string(0), "0");
    assert_eq!(decimal_string(7), "7");
    assert_eq!(decimal_string(1001), "1001");
    assert_eq!(decimal_string(u64::MAX), u64::MAX.to_string());
}

#[test]
fn path_joining() {
    assert_eq!(join_path("/work", "47"), "/work/47");
    assert_eq!(join_path("/work/", "47"), "/work/47");
    assert_eq!(join_path("", "47"), "47");
    assert_eq!(join_path("/work", "/abs"), "/abs");
    assert_eq!(join_path("/work", ""), "/work/");
    assert_eq!(dashed("a", "b"), "a-b");
}

#[test]
fn case_list() {
    let c = cases(3);
    assert_eq!(
        c,
        vec![
            (String::from("1.in"), String::from("1.out")),
            (String::from("2.in"), String::from("2.out")),
            (String::from("3.in"), String::from("3.out")),
        ]
    );
    assert!(cases(0).is_empty());
}

#[test]
fn second_server_gcc() {
    let g = Gcc { std: "c++17", is_cpp: true };
    assert_eq!(g.source_name(), "src.cpp");
    assert_eq!(g.source_path("/w"), "/w/src.cpp");
    let t = g.compile_target("/w", "/w/ce.txt");
    assert_eq!(t.bin, "g++");
    assert_eq!(t.args, vec!["src.cpp", "-o", "src", "-O2", "-static", "-std=c++17"]);
    match g.compile_result("/w", Some(0), String::new()) {
        CompileResult::Success(p) => assert_eq!(p, "/w/src"),
        _ => panic!("expected a binary"),
    }
    match g.compile_result("/w", Some(1), String::from("bad")) {
        CompileResult::CE(m) => assert_eq!(m, "bad"),
        _ => panic!("expected a compile error"),
    }
    assert!(matches!(g.compile_result("/w", None, String::new()), CompileResult::CLE));
}

#[test]
fn second_server_parse_status() {
    let limit = Limit { time: 100, memory: 100, output: 100, security_cfg_path: None };
    let st = TargetStatus { code: Some(0), signal: None, real_time: 0, user_time: 60, sys_time: 50, memory: 1 };
    let (t, m, r) = parse_status(&st, &limit);
    assert_eq!((t, m), (110, 1));
    let r = r.unwrap();
    assert_eq!(r.status, JudgeStatus::TLE);
    assert_eq!(r.time, 110);
    let st = TargetStatus { code: Some(0), signal: None, real_time: 0, user_time: 6, sys_time: 5, memory: 1 };
    assert!(parse_status(&st, &limit).2.is_none());
    assert!(Limit::no_effect().is_none());
}
