use crate::server::types::component::{CompileTask, Target};
use crate::text::{push_str, views};
use vstd::prelude::*;

verus! {

/// `gcc $SOURCE -o $BIN -O2 -static -std=$STD`, or `g++` for C++.
pub struct Gcc {
    pub is_cpp: bool,
    pub std: &'static str,
}

impl Gcc {
    /// The compiler command for a task; the compiler's messages go to the task's
    /// message file.
    pub fn compile_target(&self, task: &CompileTask) -> (t: Target)
        ensures
            t.working_dir == task.working_dir,
            t.bin@ == if self.is_cpp {
                "g++"@
            } else {
                "gcc"@
            },
            views(t.args@) == seq![
                task.source_path@,
                "-o"@,
                task.binary_path@,
                "-O2"@,
                "-static"@,
                "-std="@ + self.std@,
            ],
            t.stdin is None,
            t.stdout is None,
            t.stderr == Some(task.ce_message_path),
    {
        let bin = if self.is_cpp {
            "g++"
        } else {
            "gcc"
        };
        let mut std = String::from_str("-std=");
        std.append(self.std);
        let mut args: Vec<String> = Vec::new();
        push_str(&mut args, task.source_path.as_str());
        push_str(&mut args, "-o");
        push_str(&mut args, task.binary_path.as_str());
        push_str(&mut args, "-O2");
        push_str(&mut args, "-static");
        push_str(&mut args, std.as_str());
        Target {
            working_dir: task.working_dir.clone(),
            bin: String::from_str(bin),
            args,
            stdin: None,
            stdout: None,
            stderr: Some(task.ce_message_path.clone()),
        }
    }
}

} // verus!
