use super::Broker;
use crate::server::types::judge::CaseTask;
use crate::server::types::sandbox::Target;
use crate::text::{push_str, views};
use vstd::prelude::*;

verus! {

/// Rust through rustc.
#[derive(Clone, Copy)]
pub struct Rustc;

impl Rustc {
    pub fn filename(&self) -> (r: (&'static str, Option<&'static str>))
        ensures
            (r.0@, match r.1 {
                Some(b) => Some(b@),
                None => None,
            }) == Broker::Rustc(*self).filename_spec(),
    {
        ("src.rs", Some("src"))
    }

    /// `rustc src.rs -o src -O --edition 2018`
    pub fn compile(&self, working_dir: &str, ce_filename: &str) -> (r: Target)
        ensures
            Some(r@) == Broker::Rustc(*self).compile_view(working_dir@, ce_filename@),
    {
        let mut args: Vec<String> = Vec::new();
        push_str(&mut args, "src.rs");
        push_str(&mut args, "-o");
        push_str(&mut args, "src");
        push_str(&mut args, "-O");
        push_str(&mut args, "--edition");
        push_str(&mut args, "2018");
        let t = Target {
            working_dir: String::from_str(working_dir),
            bin: String::from_str("rustc"),
            args,
            stdin: None,
            stdout: None,
            stderr: Some(String::from_str(ce_filename)),
        };
        proof {
            assert(views(t.args@) =~= Broker::Rustc(*self).compile_view(working_dir@, ce_filename@).unwrap().args);
        }
        t
    }

    /// Runs the compiled binary directly.
    pub fn run_case(&self, task: &CaseTask) -> (r: Target)
        requires
            task.act_path is None,
            task.bin_filename is Some,
        ensures
            r@ == Broker::Rustc(*self).run_view(*task),
    {
        Target::direct(task)
    }
}

} // verus!
