use crate::server::types::component::{CompileTask, Target};
use crate::text::{push_str, views};
use vstd::prelude::*;

verus! {

/// `rustc $SOURCE -o $BIN -O --edition 2018`
pub struct Rustc;

impl Rustc {
    /// The compiler command for a task.
    pub fn compile_target(&self, task: &CompileTask) -> (t: Target)
        ensures
            t.working_dir == task.working_dir,
            t.bin@ == "rustc"@,
            views(t.args@) == seq![
                task.source_path@,
                "-o"@,
                task.binary_path@,
                "-O"@,
                "--edition"@,
                "2018"@,
            ],
            t.stdin is None,
            t.stdout is None,
            t.stderr == Some(task.ce_message_path),
    {
        let mut args: Vec<String> = Vec::new();
        push_str(&mut args, task.source_path.as_str());
        push_str(&mut args, "-o");
        push_str(&mut args, task.binary_path.as_str());
        push_str(&mut args, "-O");
        push_str(&mut args, "--edition");
        push_str(&mut args, "2018");
        Target {
            working_dir: task.working_dir.clone(),
            bin: String::from_str("rustc"),
            args,
            stdin: None,
            stdout: None,
            stderr: Some(task.ce_message_path.clone()),
        }
    }
}

} // verus!
