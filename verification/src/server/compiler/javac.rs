use crate::server::types::component::{CompileTask, Target};
use crate::text::{push_str, suffixed, views};
use vstd::prelude::*;

verus! {

/// `javac -J-Xms64m -J-Xmx512m -encoding UTF-8 -sourcepath $SOURCE -d $BIN $SOURCE/Main.java`
pub struct Javac;

impl Javac {
    /// The compiler command for a task whose source path is the source directory.
    pub fn compile_target(&self, task: &CompileTask) -> (t: Target)
        ensures
            t.working_dir == task.working_dir,
            t.bin@ == "javac"@,
            views(t.args@) == seq![
                "-J-Xms64m"@,
                "-J-Xmx512m"@,
                "-encoding"@,
                "UTF-8"@,
                "-sourcepath"@,
                task.source_path@,
                "-d"@,
                task.binary_path@,
                task.source_path@ + "/Main.java"@,
            ],
            t.stdin is None,
            t.stdout is None,
            t.stderr == Some(task.ce_message_path),
    {
        let java_path = suffixed(task.source_path.as_str(), "/Main.java");
        let mut args: Vec<String> = Vec::new();
        push_str(&mut args, "-J-Xms64m");
        push_str(&mut args, "-J-Xmx512m");
        push_str(&mut args, "-encoding");
        push_str(&mut args, "UTF-8");
        push_str(&mut args, "-sourcepath");
        push_str(&mut args, task.source_path.as_str());
        push_str(&mut args, "-d");
        push_str(&mut args, task.binary_path.as_str());
        push_str(&mut args, java_path.as_str());
        Target {
            working_dir: task.working_dir.clone(),
            bin: String::from_str("javac"),
            args,
            stdin: None,
            stdout: None,
            stderr: Some(task.ce_message_path.clone()),
        }
    }
}

} // verus!
