use super::Broker;
use crate::server::types::judge::CaseTask;
use crate::server::types::sandbox::Target;
use crate::text::{push_str, views};
use vstd::prelude::*;

verus! {

/// TypeScript, compiled to JavaScript and run by `node`.
#[derive(Clone, Copy)]
pub struct TsNode;

impl TsNode {
    pub fn filename(&self) -> (r: (&'static str, Option<&'static str>))
        ensures
            (r.0@, match r.1 {
                Some(b) => Some(b@),
                None => None,
            }) == Broker::TsNode(*self).filename_spec(),
    {
        ("src.ts", Some("src.js"))
    }

    /// `tsc src.ts --outFile src.js --strict -t ESNEXT`, whose messages go to standard output.
    pub fn compile(&self, working_dir: &str, ce_filename: &str) -> (r: Option<Target>)
        ensures
            match r {
                Some(t) => Some(t@),
                None => None,
            } == Broker::TsNode(*self).compile_view(working_dir@, ce_filename@),
    {
        let mut args: Vec<String> = Vec::new();
        push_str(&mut args, "src.ts");
        push_str(&mut args, "--outFile");
        push_str(&mut args, "src.js");
        push_str(&mut args, "--strict");
        push_str(&mut args, "-t");
        push_str(&mut args, "ESNEXT");
        let t = Target {
            working_dir: String::from_str(working_dir),
            bin: String::from_str("tsc"),
            args,
            stdin: None,
            stdout: Some(String::from_str(ce_filename)),
            stderr: None,
        };
        proof {
            assert(views(t.args@) =~= Broker::TsNode(*self).compile_view(working_dir@, ce_filename@).unwrap().args);
        }
        Some(t)
    }

    /// `node src.js`
    pub fn run_case(&self, task: &CaseTask) -> (r: Target)
        requires
            task.act_path is None,
        ensures
            r@ == Broker::TsNode(*self).run_view(*task),
    {
        Target::vm(task, String::from_str("node"), String::from_str("src.js"))
    }
}

} // verus!
