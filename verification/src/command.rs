//! Command lines and the captured result of a finished subprocess.

use vstd::prelude::*;

verus! {

/// A subprocess invocation: what to run, with which arguments, and where.
#[derive(Debug, Clone, PartialEq, Eq)]
pub struct CommandLine {
    /// The executable, by name or path.
    pub program: String,
    /// The arguments, in order.
    pub args: Vec<String>,
    /// The working directory, where one is set.
    pub current_dir: Option<String>,
}

/// A `CommandLine` with its texts as character sequences.
pub struct CommandLineView {
    pub program: Seq<char>,
    pub args: Seq<Seq<char>>,
    pub current_dir: Option<Seq<char>>,
}

/// The texts of a list of strings, in order.
pub open spec fn texts_of(items: Seq<String>) -> Seq<Seq<char>> {
    Seq::new(items.len(), |i: int| items[i]@)
}

impl View for CommandLine {
    type V = CommandLineView;

    open spec fn view(&self) -> CommandLineView {
        CommandLineView {
            program: self.program@,
            args: texts_of(self.args@),
            current_dir: match self.current_dir {
                Some(dir) => Some(dir@),
                None => None,
            },
        }
    }
}

/// A spawned process: its id and the arguments it was started with. It
/// exists from the spawn until the process is killed or exits.
#[derive(Debug, Clone, PartialEq, Eq)]
pub struct ProcessHandle {
    /// The process id that the spawn produced.
    pub pid: u32,
    /// The arguments of its command line, in order.
    pub args: Vec<String>,
}

/// A `ProcessHandle` with its arguments as character sequences.
pub struct ProcessHandleView {
    pub pid: u32,
    pub args: Seq<Seq<char>>,
}

impl View for ProcessHandle {
    type V = ProcessHandleView;

    open spec fn view(&self) -> ProcessHandleView {
        ProcessHandleView { pid: self.pid, args: texts_of(self.args@) }
    }
}

/// What a subprocess left behind when it ended.
#[derive(Debug, Clone, PartialEq, Eq)]
pub struct ProcessOutput {
    /// Whether it ended successfully.
    pub success: bool,
    /// Its exit code; none where a signal ended it.
    pub code: Option<i32>,
    /// Everything it wrote to stdout.
    pub stdout: Vec<u8>,
    /// Everything it wrote to stderr.
    pub stderr: Vec<u8>,
}

} // verus!
