use wa_judge::monitor::types::{MonitorErrorKind, TargetStatus};
use wa_judge::server::comparer::SimpleComparer;
use wa_judge::server::compiler::{Gcc as GccCompiler, Javac, Rustc as RustcCompiler};
use wa_judge::server::config::{Config, RedisConfig};
use wa_judge::server::lang::{Broker, Java, Nodejs, Python3, Rustc, TsNode};
use wa_judge::server::redis::{problem_data_key, submission_key, submission_status_key, RedisKeys};
use wa_judge::server::sandbox::BareMonitorSandBox;
use wa_judge::server::threads::listener::{needs_sync, parse_timestamp};
use wa_judge::server::threads::worker::{
    after_run, case_file_names, case_task, compile_outcome, working_dir_of, parse_status, special_judge_status, CaseStep, CaseTally,
    CompileOutcome, JudgeMachine, Phase,
};
use wa_judge::server::types::component::{CompileTask, Comparision as ComponentComparision};
use wa_judge::server::types::judge::Comparision::{AC, PE, WA};
use wa_judge::server::types::judge::{
    CaseTask, Comparision, JudgeCaseResult, JudgeResult, JudgeStatus, JudgeType, Submission,
};
use wa_judge::server::types::lang::Language;
use wa_judge::server::types::sandbox::{Limit, Target};
use wa_judge::server::utils::compare::compare;

fn submission() -> Submission {
    Submission {
        id: 47,
        problem_id: 1001,
        judge_type: JudgeType::Strict,
        time_limit: 1,
        memory_limit: 32,
        case_num: 1,
        source_code: String::from("class Main { public static void main(String[] a) { } }"),
        lang: Language::C99,
    }
}

fn config() -> Config {
    Config {
        redis: RedisConfig {
            url: String::from("redis://127.0.0.1/"),
            key_prefix: String::from("wa"),
            submission_queue_key: String::from("submissions"),
            temp_queue_key: String::from("temp"),
            submission_key_prefix: String::from("submission"),
            submission_status_key_prefix: String::from("status"),
            judge_result_queue_key: String::from("results"),
            data_time_map_key: String::from("data-time"),
            data_key_prefix: String::from("data"),
        },
        output_hard_limit: 64,
        memory_hard_limit: 256,
        data_dir: String::from("/data"),
        workspace: String::from("/work"),
        compile_limit: None,
        worker_num: 2,
    }
}

fn status(code: Option<i32>, signal: Option<i32>, user: u64, sys: u64, memory: u64) -> TargetStatus {
    TargetStatus { code, signal, real_time: 0, user_time: user, sys_time: sys, memory }
}

#[test]
fn test_simple_comparer() {
    let mut comparer = SimpleComparer { ignore_trailing_space: true };

    let cases_ignoring: [(Comparision, &str, &str); 8] = [
        (AC, "1 2\n3 4", "1 2\r\n3 4\n"),
        (AC, "1 2 \n3 4", "1 2 \r\n3 4 \n"),
        (WA, "1 2 \n3 4", "1 2 \r\n3 4 5\n"),
        (WA, "1 2 \n3 4 5", "1 2 \r\n3 4 \n"),
        (WA, "\n", ""),
        (WA, "", "\n"),
        (AC, " \n", " "),
        (AC, "1\n", "1"),
    ];
    for (expected, std, user) in cases_ignoring.iter() {
        assert_eq!(comparer.compare(std, user), *expected, "{:?} vs {:?}", std, user);
    }

    comparer.ignore_trailing_space = false;

    let cases_strict: [(Comparision, &str, &str); 9] = [
        (AC, "1 2\n3 4", "1 2\r\n3 4\n"),
        (PE, "1 2 \n3 4", "1 2 \r\n3 4 \n"),
        (WA, "1 2 \n3 4", "1 2 \r\n3 4 5\n"),
        (WA, "1 2 \n3 4 5", "1 2 \r\n3 4 \n"),
        (WA, "\n", ""),
        (WA, "", "\n"),
        (AC, " \n", " "),
        (AC, "1\n", "1"),
        (PE, "1 \n", "1"),
    ];
    for (expected, std, user) in cases_strict.iter() {
        assert_eq!(comparer.compare(std, user), *expected, "{:?} vs {:?}", std, user);
    }
}

#[test]
fn simple_comparer_inner_whitespace_matters() {
    let comparer = SimpleComparer { ignore_trailing_space: true };
    assert_eq!(comparer.compare("1  2", "1 2"), WA);
    assert_eq!(comparer.compare(" 1", "1"), WA);
    assert_eq!(comparer.compare("1\t", "1"), AC);
    assert_eq!(compare(false, "1\t", "1"), PE);
    assert_eq!(compare(true, "a\nb", "a\nb"), AC);
}

#[test]
fn print_mock_submission() {
    let sm = Submission {
        id: 47,
        problem_id: 1001,
        judge_type: JudgeType::Strict,
        time_limit: 1,
        memory_limit: 32,
        case_num: 1,
        source_code: String::from("public class Main { public static void main(String[] args) { System.out.println(\"Hello\"); } }"),
        lang: Language::C99,
    };
    let value = format!("{:?}", sm);
    assert!(value.contains("47"));
    println!("{:?}", value);
}

#[test]
fn updates_and_results() {
    let s = submission();
    let u = s.update(JudgeStatus::Queuing);
    assert_eq!(u.submission_id, 47);
    assert_eq!(u.status, JudgeStatus::Queuing);
    assert!(!u.is_final());
    let f = s.final_update(JudgeStatus::AC, JudgeResult::zero());
    assert!(f.is_final());
    let ce = JudgeResult::from_ce(String::from("error: expected ';'"));
    assert_eq!(ce.compile_message.as_deref(), Some("error: expected ';'"));
    assert_eq!(ce.time, 0);
    assert!(ce.cases.is_empty());
    assert_eq!(AC.to_status(), JudgeStatus::AC);
    assert_eq!(WA.to_status(), JudgeStatus::WA);
    assert_eq!(PE.to_status(), JudgeStatus::PE);
    assert_eq!(ComponentComparision::PE.code(), 2);
}

#[test]
fn limits_of_a_submission() {
    let mut s = submission();
    let c = config();
    let l = Limit::from_submission(&s, &c);
    assert_eq!(l.time, 1000);
    assert_eq!(l.memory, 64 * 1024);
    assert_eq!(l.output, 64 * 1024);
    s.memory_limit = 200;
    assert_eq!(Limit::from_submission(&s, &c).memory, 256 * 1024);
    s.time_limit = u64::MAX / 10;
    s.memory_limit = u64::MAX;
    let l = Limit::from_submission(&s, &c);
    assert_eq!(l.time, u64::MAX);
    assert_eq!(l.memory, 256 * 1024);
    assert!(Limit::no_effect().is_none());
}

#[test]
fn run_verdicts_in_order() {
    let limit = Limit { time: 1000, memory: 1024, output: 1024 };
    assert_eq!(parse_status(&status(Some(0), None, 600, 500, 2048), &limit), (1100, 2048, Some(JudgeStatus::TLE)));
    assert_eq!(parse_status(&status(Some(0), None, 600, 400, 2048), &limit), (1000, 2048, Some(JudgeStatus::MLE)));
    assert_eq!(parse_status(&status(None, Some(25), 10, 0, 10), &limit), (10, 10, Some(JudgeStatus::OLE)));
    assert_eq!(parse_status(&status(None, Some(9), 10, 0, 10), &limit), (10, 10, Some(JudgeStatus::RE)));
    assert_eq!(parse_status(&status(Some(1), None, 10, 0, 10), &limit), (10, 10, Some(JudgeStatus::RE)));
    assert_eq!(parse_status(&status(Some(0), None, 10, 5, 10), &limit), (15, 10, None));
}

#[test]
fn case_steps() {
    let limit = Limit { time: 1000, memory: 1024, output: 1024 };
    let ok = status(Some(0), None, 3, 4, 5);
    assert_eq!(
        after_run(&ok, &limit, JudgeType::Strict, false),
        CaseStep::Compare { time: 7, memory: 5, ignore_trailing_space: false }
    );
    assert_eq!(
        after_run(&ok, &limit, JudgeType::IgnoreTrialingSpace, false),
        CaseStep::Compare { time: 7, memory: 5, ignore_trailing_space: true }
    );
    assert_eq!(after_run(&ok, &limit, JudgeType::SpecialJudge, true), CaseStep::SpecialJudge { time: 7, memory: 5 });
    let crashed = status(Some(139), None, 3, 4, 5);
    assert_eq!(
        after_run(&crashed, &limit, JudgeType::Strict, false),
        CaseStep::Done(JudgeCaseResult { time: 7, memory: 5, status: JudgeStatus::RE })
    );
    assert_eq!(special_judge_status(Some(0)), JudgeStatus::AC);
    assert_eq!(special_judge_status(Some(1)), JudgeStatus::WA);
    assert_eq!(special_judge_status(Some(2)), JudgeStatus::PE);
    assert_eq!(special_judge_status(Some(3)), JudgeStatus::WA);
    assert_eq!(special_judge_status(None), JudgeStatus::WA);
    assert_eq!(compile_outcome(Some(0)), CompileOutcome::Success);
    assert_eq!(compile_outcome(Some(1)), CompileOutcome::CompileError);
    assert_eq!(compile_outcome(None), CompileOutcome::LimitExceeded);
}

fn case(status: JudgeStatus, time: u64) -> JudgeCaseResult {
    JudgeCaseResult { time, memory: time * 2, status }
}

#[test]
fn tally_keeps_the_last_failure() {
    let mut t = CaseTally::new();
    t.add(case(JudgeStatus::AC, 1));
    assert_eq!(t.status, JudgeStatus::AC);
    t.add(case(JudgeStatus::WA, 2));
    t.add(case(JudgeStatus::AC, 3));
    assert_eq!(t.status, JudgeStatus::WA);
    t.add(case(JudgeStatus::TLE, 4));
    assert_eq!(t.status, JudgeStatus::TLE);
    assert_eq!(t.result.time, 10);
    assert_eq!(t.result.memory, 20);
    assert_eq!(t.result.cases.len(), 4);
    let u = t.into_update(&submission());
    assert_eq!(u.status, JudgeStatus::TLE);
    assert!(u.is_final());
}

#[test]
fn judge_machine_runs_every_case() {
    let mut s = submission();
    s.case_num = 2;
    let (mut m, u) = JudgeMachine::new(&s);
    assert_eq!(u.status, JudgeStatus::Compiling);
    let u = m.compiled(Some(0)).unwrap();
    assert_eq!(u.status, JudgeStatus::Judging);
    assert_eq!(m.phase, Phase::Judging);
    assert_eq!(m.next_case(), Some(1));
    m.case_judged(case(JudgeStatus::AC, 5));
    assert_eq!(m.next_case(), Some(2));
    m.case_judged(case(JudgeStatus::AC, 6));
    assert_eq!(m.next_case(), None);
    let f = m.finish();
    assert_eq!(f.status, JudgeStatus::AC);
    assert_eq!(f.result.as_ref().unwrap().time, 11);
    assert_eq!(f.result.as_ref().unwrap().cases.len(), 2);
}

#[test]
fn judge_machine_compile_failures() {
    let s = submission();
    let (mut m, _) = JudgeMachine::new(&s);
    assert!(m.compiled(Some(1)).is_none());
    assert_eq!(m.phase, Phase::AwaitingMessage);
    let u = m.compile_message(String::from("boom"));
    assert_eq!(u.status, JudgeStatus::CE);
    assert_eq!(u.result.unwrap().compile_message.as_deref(), Some("boom"));
    let (mut m, _) = JudgeMachine::new(&s);
    let u = m.compiled(None).unwrap();
    assert_eq!(u.status, JudgeStatus::CLE);
    assert_eq!(m.phase, Phase::Done);
}

#[test]
fn case_files() {
    let (i, o) = case_file_names(12);
    assert_eq!(i, "12.in");
    assert_eq!(o, "12.out");
}

#[test]
fn data_sync_decision() {
    assert!(needs_sync(None, 0));
    assert!(needs_sync(Some(5), 6));
    assert!(!needs_sync(Some(6), 6));
    assert!(!needs_sync(Some(7), 6));
    assert_eq!(parse_timestamp(" 1700000000\n"), Some(1700000000));
    assert_eq!(parse_timestamp("+42"), Some(42));
    assert_eq!(parse_timestamp("18446744073709551615"), Some(u64::MAX));
    assert_eq!(parse_timestamp("18446744073709551616"), None);
    assert_eq!(parse_timestamp("-1"), None);
    assert_eq!(parse_timestamp("+"), None);
    assert_eq!(parse_timestamp(""), None);
    assert_eq!(parse_timestamp("12a"), None);
    assert_eq!(parse_timestamp("1 2"), None);
}

#[test]
fn redis_key_names() {
    let c = config();
    let k = RedisKeys::new(&c.redis);
    assert_eq!(k.submission_queue_key, "wa-submissions");
    assert_eq!(k.temp_queue_key, "wa-temp");
    assert_eq!(k.judge_result_queue_key, "wa-results");
    assert_eq!(k.data_time_map_key, "wa-data-time");
    assert_eq!(submission_key(&c.redis, 47), "wa-submission-47");
    assert_eq!(submission_status_key(&c.redis, 0), "wa-status-0");
    assert_eq!(problem_data_key(&c.redis, 1001), "wa-data-1001");
}

#[test]
fn monitor_command_line() {
    let t = Target {
        working_dir: String::from("/work/47"),
        bin: String::from("/work/47/src"),
        args: vec![String::from("x")],
        stdin: Some(String::from("1.in")),
        stdout: None,
        stderr: Some(String::from("err.log")),
    };
    let sb = BareMonitorSandBox;
    assert_eq!(
        sb.monitor_args(&t),
        vec!["-i", "1.in", "-o", "/dev/null", "-e", "err.log", "--", "/work/47/src", "x"]
    );
    assert_eq!(sb.monitor_failure(Some(0)), None);
    assert_eq!(sb.monitor_failure(Some(42)), Some(MonitorErrorKind::ExecvpError));
    assert_eq!(sb.monitor_failure(Some(7)), Some(MonitorErrorKind::FifoError));
    assert_eq!(sb.monitor_failure(Some(99)), Some(MonitorErrorKind::Unknown));
    assert_eq!(sb.monitor_failure(None), Some(MonitorErrorKind::Unknown));
}

fn task<'a>(s: &'a Submission, bin: Option<&str>) -> CaseTask<'a> {
    CaseTask {
        working_dir: String::from("/work/47"),
        submission: s,
        src_filename: String::from("src.c"),
        bin_filename: bin.map(String::from),
        case_index: 1,
        stdin_path: String::from("/data/1001/1.in"),
        stdout_path: String::from("/data/1001/1.out"),
        userout_path: String::from("/work/47/userout.out"),
        act_path: None,
        spj_path: None,
        err_log_path: None,
    }
}

#[test]
fn run_targets() {
    let s = submission();
    let t = task(&s, Some("src"));
    let d = Target::direct(&t);
    assert_eq!(d.bin, "/work/47/src");
    assert!(d.args.is_empty());
    assert_eq!(d.stdin.as_deref(), Some("/data/1001/1.in"));
    assert_eq!(d.stdout.as_deref(), Some("/work/47/userout.out"));
    let v = Target::vm(&t, String::from("python3"), String::from("src.py"));
    assert_eq!(v.bin, "python3");
    assert_eq!(v.args, vec!["src.py"]);
    let w = d.wrap_interact("/work/47/act", "au", "ua", Some(String::from("err")));
    assert_eq!(w.bin, "wa-interact");
    assert_eq!(
        w.args,
        vec![
            "--actin", "/data/1001/1.in", "--actout", "/work/47/userout.out", "--actpath", "/work/47/act",
            "--aupipe", "au", "--uapipe", "ua", "--", "/work/47/src"
        ]
    );
    assert!(w.stdin.is_none() && w.stdout.is_none());
    assert_eq!(w.stderr.as_deref(), Some("err"));
}

#[test]
fn language_brokers() {
    let s = submission();
    let b = Language::Cpp14.get_broker();
    assert_eq!(b.filename(), ("src.cpp", Some("src")));
    let c = b.compile("/work/47", "ce.txt").unwrap();
    assert_eq!(c.bin, "g++");
    assert_eq!(c.args, vec!["src.cpp", "-o", "src", "-O2", "-static", "-std=c++14"]);
    assert_eq!(c.stderr.as_deref(), Some("ce.txt"));
    let c = Language::C89.get_broker().compile(".", "ce.txt").unwrap();
    assert_eq!(c.args, vec!["src.c", "-o", "src", "-O2", "-static", "-std=c89"]);

    let java = Broker::Java(Java);
    assert_eq!(java.filename(), ("Main.java", Some("Main")));
    let c = java.compile(".", "ce.txt").unwrap();
    assert_eq!(c.args, vec!["-encoding", "UTF-8", "-sourcepath", ".", "-d", ".", "Main.java"]);
    let r = java.run_case(&task(&s, Some("Main")));
    assert_eq!((r.bin.as_str(), r.args.clone()), ("java", vec![String::from("Main")]));

    assert!(Broker::Python3(Python3).compile(".", "ce.txt").is_none());
    assert_eq!(Broker::Python3(Python3).run_case(&task(&s, None)).args, vec!["src.py"]);
    assert_eq!(Broker::Nodejs(Nodejs).run_case(&task(&s, None)).bin, "node");
    let ts = Broker::TsNode(TsNode).compile(".", "ce.txt").unwrap();
    assert_eq!(ts.bin, "tsc");
    assert_eq!(ts.args, vec!["src.ts", "--outFile", "src.js", "--strict", "-t", "ESNEXT"]);
    assert_eq!(ts.stdout.as_deref(), Some("ce.txt"));
    assert!(ts.stderr.is_none());
    let rs = Broker::Rustc(Rustc).compile(".", "ce.txt").unwrap();
    assert_eq!(rs.args, vec!["src.rs", "-o", "src", "-O", "--edition", "2018"]);
    assert_eq!(Broker::Rustc(Rustc).run_case(&task(&s, Some("src"))).bin, "/work/47/src");
}

#[test]
fn compiler_commands() {
    let task = CompileTask {
        working_dir: String::from("."),
        source_path: String::from("hello.c"),
        binary_path: String::from("hello"),
        ce_message_path: String::from("ce.txt"),
    };
    let g = GccCompiler { is_cpp: false, std: "c99" }.compile_target(&task);
    assert_eq!(g.bin, "gcc");
    assert_eq!(g.args, vec!["hello.c", "-o", "hello", "-O2", "-static", "-std=c99"]);
    assert_eq!(g.stderr.as_deref(), Some("ce.txt"));
    let j = Javac.compile_target(&task);
    assert_eq!(j.args.last().map(String::as_str), Some("hello.c/Main.java"));
    assert_eq!(j.args.len(), 9);
    let r = RustcCompiler.compile_target(&task);
    assert_eq!(r.bin, "rustc");
    assert_eq!(r.args, vec!["hello.c", "-o", "hello", "-O", "--edition", "2018"]);
}

#[test]
fn case_task_paths() {
    let mut s = submission();
    assert_eq!(working_dir_of("/work", 47), "/work/47");
    let t = case_task(&s, "/work/47", "/data", "src.c", Some("src"), 3);
    assert_eq!(t.stdin_path, "/data/1001/3.in");
    assert_eq!(t.stdout_path, "/data/1001/3.out");
    assert_eq!(t.userout_path, "/work/47/userout.out");
    assert_eq!(t.bin_filename.as_deref(), Some("src"));
    assert!(t.act_path.is_none() && t.spj_path.is_none());
    s.judge_type = JudgeType::SpecialJudge;
    let t = case_task(&s, "/work/47", "/data", "src.c", None, 1);
    assert_eq!(t.spj_path.as_deref(), Some("/work/47/spj"));
    s.judge_type = JudgeType::Interactive;
    let t = case_task(&s, "/work/47", "/data", "src.c", None, 1);
    assert_eq!(t.act_path.as_deref(), Some("/work/47/act"));
}

#[test]
fn simple_comparer_laws_on_samples() {
    let samples: [&str; 4] = ["", "1 2 \n3", "a\r\nb\t\n", " \n"];
    for s in samples.iter() {
        for ignore in [false, true] {
            assert_eq!(SimpleComparer { ignore_trailing_space: ignore }.compare(s, s), AC);
        }
    }
    let pairs: [(&str, &str); 4] = [("1 \n2", "1\n3"), ("a", "a "), ("a\nb", "a\r\nb\n"), ("x", "y")];
    for (s, u) in pairs.iter() {
        let strict = compare(false, s, u);
        let lenient = compare(true, s, u);
        assert_ne!(lenient, PE);
        if strict != PE {
            assert_eq!(strict, lenient);
        }
    }
}
