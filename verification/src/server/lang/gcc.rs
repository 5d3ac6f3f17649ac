use super::Broker;
use crate::server::types::judge::CaseTask;
use crate::server::types::sandbox::Target;
use crate::text::{push_str, views};
use vstd::prelude::*;

verus! {

/// C and C++ through GCC, with the language standard `std`.
#[derive(Clone, Copy)]
pub struct Gcc {
    pub is_cpp: bool,
    pub std: &'static str,
}

impl Gcc {
    pub fn filename(&self) -> (r: (&'static str, Option<&'static str>))
        ensures
            (r.0@, match r.1 {
                Some(b) => Some(b@),
                None => None,
            }) == Broker::Gcc(*self).filename_spec(),
    {
        (if self.is_cpp {
            "src.cpp"
        } else {
            "src.c"
        }, Some("src"))
    }

    /// `gcc   src.c -o src -O2 -static -std=$STD`
    /// `g++ src.cpp -o src -O2 -static -std=$STD`
    pub fn compile(&self, working_dir: &str, ce_filename: &str) -> (r: Target)
        ensures
            Some(r@) == Broker::Gcc(*self).compile_view(working_dir@, ce_filename@),
    {
        let gcc = if self.is_cpp {
            "g++"
        } else {
            "gcc"
        };
        let src = if self.is_cpp {
            "src.cpp"
        } else {
            "src.c"
        };
        let mut std = String::from_str("-std=");
        std.append(self.std);
        let mut args: Vec<String> = Vec::new();
        push_str(&mut args, src);
        push_str(&mut args, "-o");
        push_str(&mut args, "src");
        push_str(&mut args, "-O2");
        push_str(&mut args, "-static");
        push_str(&mut args, std.as_str());
        let t = Target {
            working_dir: String::from_str(working_dir),
            bin: String::from_str(gcc),
            args,
            stdin: None,
            stdout: None,
            stderr: Some(String::from_str(ce_filename)),
        };
        proof {
            assert(views(t.args@) =~= Broker::Gcc(*self).compile_view(working_dir@, ce_filename@).unwrap().args);
        }
        t
    }

    /// Runs the compiled binary directly.
    pub fn run_case(&self, task: &CaseTask) -> (r: Target)
        requires
            task.act_path is None,
            task.bin_filename is Some,
        ensures
            r@ == Broker::Gcc(*self).run_view(*task),
    {
        Target::direct(task)
    }
}

} // verus!
