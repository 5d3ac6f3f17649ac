use super::Broker;
use crate::server::types::judge::CaseTask;
use crate::server::types::sandbox::Target;
use crate::text::{push_str, views};
use vstd::prelude::*;

verus! {

/// Java through javac and the JVM.
#[derive(Clone, Copy)]
pub struct Java;

impl Java {
    pub fn filename(&self) -> (r: (&'static str, Option<&'static str>))
        ensures
            (r.0@, match r.1 {
                Some(b) => Some(b@),
                None => None,
            }) == Broker::Java(*self).filename_spec(),
    {
        ("Main.java", Some("Main"))
    }

    /// `javac -encoding UTF-8 -sourcepath . -d . Main.java`
    pub fn compile(&self, working_dir: &str, ce_filename: &str) -> (r: Option<Target>)
        ensures
            match r {
                Some(t) => Some(t@),
                None => None,
            } == Broker::Java(*self).compile_view(working_dir@, ce_filename@),
    {
        let mut args: Vec<String> = Vec::new();
        push_str(&mut args, "-encoding");
        push_str(&mut args, "UTF-8");
        push_str(&mut args, "-sourcepath");
        push_str(&mut args, ".");
        push_str(&mut args, "-d");
        push_str(&mut args, ".");
        push_str(&mut args, "Main.java");
        let t = Target {
            working_dir: String::from_str(working_dir),
            bin: String::from_str("javac"),
            args,
            stdin: None,
            stdout: None,
            stderr: Some(String::from_str(ce_filename)),
        };
        proof {
            assert(views(t.args@) =~= Broker::Java(*self).compile_view(working_dir@, ce_filename@).unwrap().args);
        }
        Some(t)
    }

    /// `java Main`
    pub fn run_case(&self, task: &CaseTask) -> (r: Target)
        requires
            task.act_path is None,
        ensures
            r@ == Broker::Java(*self).run_view(*task),
    {
        Target::vm(task, String::from_str("java"), String::from_str("Main"))
    }
}

} // verus!
