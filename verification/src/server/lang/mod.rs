//! What each language needs: file names, the build command and the run command.
pub mod gcc;
pub mod java;
pub mod nodejs;
pub mod python3;
pub mod rustc;
pub mod tsnode;

pub use gcc::Gcc;
pub use java::Java;
pub use nodejs::Nodejs;
pub use python3::Python3;
pub use rustc::Rustc;
pub use tsnode::TsNode;

use super::types::judge::CaseTask;
use super::types::lang::Language;
use super::types::sandbox::{direct_view, vm_view, Target, TargetView};
use vstd::prelude::*;

verus! {

/// The handling of one language.
#[derive(Clone, Copy)]
pub enum Broker {
    Gcc(Gcc),
    Rustc(Rustc),
    Java(Java),
    Python3(Python3),
    Nodejs(Nodejs),
    TsNode(TsNode),
}

impl Broker {
    /// The source file name, and the name of what the build produces if anything.
    pub open spec fn filename_spec(self) -> (Seq<char>, Option<Seq<char>>) {
        match self {
            Broker::Gcc(g) => (
                if g.is_cpp {
                    "src.cpp"@
                } else {
                    "src.c"@
                },
                Some("src"@),
            ),
            Broker::Rustc(_) => ("src.rs"@, Some("src"@)),
            Broker::Java(_) => ("Main.java"@, Some("Main"@)),
            Broker::Python3(_) => ("src.py"@, None),
            Broker::Nodejs(_) => ("src.js"@, None),
            Broker::TsNode(_) => ("src.ts"@, Some("src.js"@)),
        }
    }

    /// The build command, run in `working_dir`, whose messages go to `ce_filename`;
    /// none for interpreted languages.
    pub open spec fn compile_view(self, working_dir: Seq<char>, ce_filename: Seq<char>) -> Option<TargetView> {
        match self {
            Broker::Gcc(g) => Some(
                TargetView {
                    working_dir,
                    bin: if g.is_cpp {
                        "g++"@
                    } else {
                        "gcc"@
                    },
                    args: seq![
                        if g.is_cpp {
                            "src.cpp"@
                        } else {
                            "src.c"@
                        },
                        "-o"@,
                        "src"@,
                        "-O2"@,
                        "-static"@,
                        "-std="@ + g.std@,
                    ],
                    stdin: None,
                    stdout: None,
                    stderr: Some(ce_filename),
                },
            ),
            Broker::Rustc(_) => Some(
                TargetView {
                    working_dir,
                    bin: "rustc"@,
                    args: seq!["src.rs"@, "-o"@, "src"@, "-O"@, "--edition"@, "2018"@],
                    stdin: None,
                    stdout: None,
                    stderr: Some(ce_filename),
                },
            ),
            Broker::Java(_) => Some(
                TargetView {
                    working_dir,
                    bin: "javac"@,
                    args: seq!["-encoding"@, "UTF-8"@, "-sourcepath"@, "."@, "-d"@, "."@, "Main.java"@],
                    stdin: None,
                    stdout: None,
                    stderr: Some(ce_filename),
                },
            ),
            Broker::Python3(_) => None,
            Broker::Nodejs(_) => None,
            Broker::TsNode(_) => Some(
                TargetView {
                    working_dir,
                    bin: "tsc"@,
                    args: seq!["src.ts"@, "--outFile"@, "src.js"@, "--strict"@, "-t"@, "ESNEXT"@],
                    stdin: None,
                    stdout: Some(ce_filename),
                    stderr: None,
                },
            ),
        }
    }

    /// The command that runs one case.
    pub open spec fn run_view(self, task: CaseTask) -> TargetView {
        match self {
            Broker::Gcc(_) => direct_view(task),
            Broker::Rustc(_) => direct_view(task),
            Broker::Java(_) => vm_view(task, "java"@, "Main"@),
            Broker::Python3(_) => vm_view(task, "python3"@, "src.py"@),
            Broker::Nodejs(_) => vm_view(task, "node"@, "src.js"@),
            Broker::TsNode(_) => vm_view(task, "node"@, "src.js"@),
        }
    }

    /// Whether cases run the compiled binary itself.
    pub open spec fn runs_binary(self) -> bool {
        self is Gcc || self is Rustc
    }

    pub fn filename(&self) -> (r: (&'static str, Option<&'static str>))
        ensures
            (r.0@, match r.1 {
                Some(b) => Some(b@),
                None => None,
            }) == self.filename_spec(),
    {
        match self {
            Broker::Gcc(g) => g.filename(),
            Broker::Rustc(b) => b.filename(),
            Broker::Java(b) => b.filename(),
            Broker::Python3(b) => b.filename(),
            Broker::Nodejs(b) => b.filename(),
            Broker::TsNode(b) => b.filename(),
        }
    }

    pub fn compile(&self, working_dir: &str, ce_filename: &str) -> (r: Option<Target>)
        ensures
            match r {
                Some(t) => Some(t@),
                None => None,
            } == self.compile_view(working_dir@, ce_filename@),
    {
        match self {
            Broker::Gcc(g) => Some(g.compile(working_dir, ce_filename)),
            Broker::Rustc(b) => Some(b.compile(working_dir, ce_filename)),
            Broker::Java(b) => b.compile(working_dir, ce_filename),
            Broker::Python3(b) => b.compile(working_dir, ce_filename),
            Broker::Nodejs(b) => b.compile(working_dir, ce_filename),
            Broker::TsNode(b) => b.compile(working_dir, ce_filename),
        }
    }

    pub fn run_case(&self, task: &CaseTask) -> (r: Target)
        requires
            task.act_path is None,
            self.runs_binary() ==> task.bin_filename is Some,
        ensures
            r@ == self.run_view(*task),
    {
        match self {
            Broker::Gcc(g) => g.run_case(task),
            Broker::Rustc(b) => b.run_case(task),
            Broker::Java(b) => b.run_case(task),
            Broker::Python3(b) => b.run_case(task),
            Broker::Nodejs(b) => b.run_case(task),
            Broker::TsNode(b) => b.run_case(task),
        }
    }
}

impl Language {
    pub open spec fn get_broker_spec(self) -> Broker {
        match self {
            Language::C11 => Broker::Gcc(Gcc { is_cpp: false, std: "c11" }),
            Language::C89 => Broker::Gcc(Gcc { is_cpp: false, std: "c89" }),
            Language::C99 => Broker::Gcc(Gcc { is_cpp: false, std: "c99" }),
            Language::Cpp11 => Broker::Gcc(Gcc { is_cpp: true, std: "c++11" }),
            Language::Cpp14 => Broker::Gcc(Gcc { is_cpp: true, std: "c++14" }),
            Language::Cpp17 => Broker::Gcc(Gcc { is_cpp: true, std: "c++17" }),
        }
    }

    /// The handling of this language: C and C++ go through GCC with the matching
    /// language standard.
    pub fn get_broker(self) -> (r: Broker)
        ensures
            r == self.get_broker_spec(),
    {
        match self {
            Language::C11 => Broker::Gcc(Gcc { is_cpp: false, std: "c11" }),
            Language::C89 => Broker::Gcc(Gcc { is_cpp: false, std: "c89" }),
            Language::C99 => Broker::Gcc(Gcc { is_cpp: false, std: "c99" }),
            Language::Cpp11 => Broker::Gcc(Gcc { is_cpp: true, std: "c++11" }),
            Language::Cpp14 => Broker::Gcc(Gcc { is_cpp: true, std: "c++14" }),
            Language::Cpp17 => Broker::Gcc(Gcc { is_cpp: true, std: "c++17" }),
        }
    }
}

/// The build command of GCC: compiler `bin` on `src`, output `src`, optimised,
/// statically linked, with the language standard flag `flag`.
pub open spec fn gcc_build(working_dir: Seq<char>, ce_filename: Seq<char>, bin: Seq<char>, src: Seq<char>, flag: Seq<char>) -> TargetView {
    TargetView {
        working_dir,
        bin,
        args: seq![src, "-o"@, "src"@, "-O2"@, "-static"@, flag],
        stdin: None,
        stdout: None,
        stderr: Some(ce_filename),
    }
}

/// Each C and C++ language is built by GCC with its own standard: C through `gcc`
/// on `src.c`, C++ through `g++` on `src.cpp`, and `-std=` naming the language's
/// standard (`c11`, `c89`, `c99`, `c++11`, `c++14`, `c++17`).
pub proof fn law_gcc_standard_of_each_language(working_dir: Seq<char>, ce_filename: Seq<char>)
    ensures
        Language::C11.get_broker_spec().compile_view(working_dir, ce_filename) == Some(
            gcc_build(working_dir, ce_filename, "gcc"@, "src.c"@, "-std=c11"@),
        ),
        Language::C89.get_broker_spec().compile_view(working_dir, ce_filename) == Some(
            gcc_build(working_dir, ce_filename, "gcc"@, "src.c"@, "-std=c89"@),
        ),
        Language::C99.get_broker_spec().compile_view(working_dir, ce_filename) == Some(
            gcc_build(working_dir, ce_filename, "gcc"@, "src.c"@, "-std=c99"@),
        ),
        Language::Cpp11.get_broker_spec().compile_view(working_dir, ce_filename) == Some(
            gcc_build(working_dir, ce_filename, "g++"@, "src.cpp"@, "-std=c++11"@),
        ),
        Language::Cpp14.get_broker_spec().compile_view(working_dir, ce_filename) == Some(
            gcc_build(working_dir, ce_filename, "g++"@, "src.cpp"@, "-std=c++14"@),
        ),
        Language::Cpp17.get_broker_spec().compile_view(working_dir, ce_filename) == Some(
            gcc_build(working_dir, ce_filename, "g++"@, "src.cpp"@, "-std=c++17"@),
        ),
{
    reveal_strlit("-std=");
    reveal_strlit("c11");
    reveal_strlit("c89");
    reveal_strlit("c99");
    reveal_strlit("c++11");
    reveal_strlit("c++14");
    reveal_strlit("c++17");
    reveal_strlit("-std=c11");
    reveal_strlit("-std=c89");
    reveal_strlit("-std=c99");
    reveal_strlit("-std=c++11");
    reveal_strlit("-std=c++14");
    reveal_strlit("-std=c++17");
    assert("-std="@ + "c11"@ =~= "-std=c11"@);
    assert("-std="@ + "c89"@ =~= "-std=c89"@);
    assert("-std="@ + "c99"@ =~= "-std=c99"@);
    assert("-std="@ + "c++11"@ =~= "-std=c++11"@);
    assert("-std="@ + "c++14"@ =~= "-std=c++14"@);
    assert("-std="@ + "c++17"@ =~= "-std=c++17"@);
    assert(Language::C11.get_broker_spec().compile_view(working_dir, ce_filename).unwrap().args =~= gcc_build(working_dir, ce_filename, "gcc"@, "src.c"@, "-std=c11"@).args);
    assert(Language::C89.get_broker_spec().compile_view(working_dir, ce_filename).unwrap().args =~= gcc_build(working_dir, ce_filename, "gcc"@, "src.c"@, "-std=c89"@).args);
    assert(Language::C99.get_broker_spec().compile_view(working_dir, ce_filename).unwrap().args =~= gcc_build(working_dir, ce_filename, "gcc"@, "src.c"@, "-std=c99"@).args);
    assert(Language::Cpp11.get_broker_spec().compile_view(working_dir, ce_filename).unwrap().args =~= gcc_build(working_dir, ce_filename, "g++"@, "src.cpp"@, "-std=c++11"@).args);
    assert(Language::Cpp14.get_broker_spec().compile_view(working_dir, ce_filename).unwrap().args =~= gcc_build(working_dir, ce_filename, "g++"@, "src.cpp"@, "-std=c++14"@).args);
    assert(Language::Cpp17.get_broker_spec().compile_view(working_dir, ce_filename).unwrap().args =~= gcc_build(working_dir, ce_filename, "g++"@, "src.cpp"@, "-std=c++17"@).args);
}

} // verus!
