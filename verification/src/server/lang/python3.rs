use super::Broker;
use crate::server::types::judge::CaseTask;
use crate::server::types::sandbox::Target;
use vstd::prelude::*;

verus! {

/// An interpreted language, run by `python3`.
#[derive(Clone, Copy)]
pub struct Python3;

impl Python3 {
    pub fn filename(&self) -> (r: (&'static str, Option<&'static str>))
        ensures
            (r.0@, match r.1 {
                Some(b) => Some(b@),
                None => None,
            }) == Broker::Python3(*self).filename_spec(),
    {
        ("src.py", None)
    }

    /// Nothing to build.
    pub fn compile(&self, working_dir: &str, ce_filename: &str) -> (r: Option<Target>)
        ensures
            r is None,
            Broker::Python3(*self).compile_view(working_dir@, ce_filename@) is None,
    {
        None
    }

    /// `python3 src.py`
    pub fn run_case(&self, task: &CaseTask) -> (r: Target)
        requires
            task.act_path is None,
        ensures
            r@ == Broker::Python3(*self).run_view(*task),
    {
        Target::vm(task, String::from_str("python3"), String::from_str("src.py"))
    }
}

} // verus!
