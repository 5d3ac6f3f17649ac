use crate::server2::sandbox::Target;
use crate::text::{join_path, path_join, push_str, views};
use vstd::prelude::*;

verus! {

/// What building a submission gave.
pub enum CompileResult {
    /// Nothing had to be built.
    NotNeeded,
    /// The compiler exceeded its limits.
    CLE,
    /// The compiler failed with this message.
    CE(String),
    /// The binary's path.
    Success(String),
}

/// C and C++ through GCC, with the language standard `std`.
pub struct Gcc {
    pub std: &'static str,
    pub is_cpp: bool,
}

impl Gcc {
    pub open spec fn src_name(self) -> Seq<char> {
        if self.is_cpp {
            "src.cpp"@
        } else {
            "src.c"@
        }
    }

    /// The file name the source code is saved under.
    pub fn source_name(&self) -> (r: &'static str)
        ensures
            r@ == self.src_name(),
    {
        if self.is_cpp {
            "src.cpp"
        } else {
            "src.c"
        }
    }

    /// The path the source code is saved to.
    pub fn source_path(&self, working_dir: &str) -> (r: String)
        ensures
            r@ == path_join(working_dir@, self.src_name()),
    {
        join_path(working_dir, self.source_name())
    }

    /// `gcc   src.c -o src -O2 -static -std=$STD`
    /// `g++ src.cpp -o src -O2 -static -std=$STD`, run in `working_dir`, with the
    /// compiler's messages going to `compile_message_path`.
    pub fn compile_target(&self, working_dir: &str, compile_message_path: &str) -> (t: Target)
        ensures
            t.working_dir@ == working_dir@,
            t.bin@ == if self.is_cpp {
                "g++"@
            } else {
                "gcc"@
            },
            views(t.args@) == seq![
                self.src_name(),
                "-o"@,
                "src"@,
                "-O2"@,
                "-static"@,
                "-std="@ + self.std@,
            ],
            t.stdin is None,
            t.stdout is None,
            t.stderr matches Some(e) && e@ == compile_message_path@,
    {
        let gcc = if self.is_cpp {
            "g++"
        } else {
            "gcc"
        };
        let mut std = String::from_str("-std=");
        std.append(self.std);
        let mut args: Vec<String> = Vec::new();
        push_str(&mut args, self.source_name());
        push_str(&mut args, "-o");
        push_str(&mut args, "src");
        push_str(&mut args, "-O2");
        push_str(&mut args, "-static");
        push_str(&mut args, std.as_str());
        Target {
            working_dir: String::from_str(working_dir),
            bin: String::from_str(gcc),
            args,
            stdin: None,
            stdout: None,
            stderr: Some(String::from_str(compile_message_path)),
        }
    }

    /// What the compiler's exit gave: on code 0 the binary `src` in the working
    /// directory; on another code a compile error with `message`; when killed, a
    /// compile limit exceeded.
    pub fn compile_result(&self, working_dir: &str, code: Option<i32>, message: String) -> (r: CompileResult)
        ensures
            code == Some(0i32) ==> (r matches CompileResult::Success(p) && p@ == path_join(working_dir@, "src"@)),
            (code matches Some(c) && c != 0) ==> r == CompileResult::CE(message),
            code is None ==> r is CLE,
    {
        match code {
            Some(0i32) => CompileResult::Success(join_path(working_dir, "src")),
            Some(_) => CompileResult::CE(message),
            None => CompileResult::CLE,
        }
    }
}

} // verus!
