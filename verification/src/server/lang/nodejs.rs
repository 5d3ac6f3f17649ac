use super::Broker;
use crate::server::types::judge::CaseTask;
use crate::server::types::sandbox::Target;
use vstd::prelude::*;

verus! {

/// An interpreted language, run by `node`.
#[derive(Clone, Copy)]
pub struct Nodejs;

impl Nodejs {
    pub fn filename(&self) -> (r: (&'static str, Option<&'static str>))
        ensures
            (r.0@, match r.1 {
                Some(b) => Some(b@),
                None => None,
            }) == Broker::Nodejs(*self).filename_spec(),
    {
        ("src.js", None)
    }

    /// Nothing to build.
    pub fn compile(&self, working_dir: &str, ce_filename: &str) -> (r: Option<Target>)
        ensures
            r is None,
            Broker::Nodejs(*self).compile_view(working_dir@, ce_filename@) is None,
    {
        None
    }

    /// `node src.js`
    pub fn run_case(&self, task: &CaseTask) -> (r: Target)
        requires
            task.act_path is None,
        ensures
            r@ == Broker::Nodejs(*self).run_view(*task),
    {
        Target::vm(task, String::from_str("node"), String::from_str("src.js"))
    }
}

} // verus!
