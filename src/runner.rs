use vstd::prelude::*;
use vstd::string::*;

verus! {

/// Where a child process's output stream goes.
#[derive(Clone, Copy, Debug, PartialEq, Eq, Structural)]
pub enum StreamMode {
    /// Straight to the parent's own stream, shown live.
    Inherit,
    /// Into a buffer that is handed back, shown nowhere.
    Capture,
}

/// How to run an external program. Its standard input is always closed.
pub struct Invocation {
    pub program: String,
    pub args: Vec<String>,
    pub stdout: StreamMode,
    pub stderr: StreamMode,
}

pub open spec fn strings_view(v: Seq<String>) -> Seq<Seq<char>> {
    v.map_values(|s: String| s@)
}

impl Invocation {
    pub open spec fn args_view(&self) -> Seq<Seq<char>> {
        strings_view(self.args@)
    }
}

/// The stream mode that the verbosity flag calls for.
pub open spec fn mode_for(verbose: bool) -> StreamMode {
    if verbose {
        StreamMode::Inherit
    } else {
        StreamMode::Capture
    }
}

/// Runs `program` with `args`: when `verbose`, both output streams go to
/// the parent's own; otherwise both are captured.
pub fn tool_invocation(program: &str, args: Vec<String>, verbose: bool) -> (r: Invocation)
    ensures
        r.program@ == program@,
        r.args@ == args@,
        r.stdout == mode_for(verbose),
        r.stderr == mode_for(verbose),
{
    let mode = if verbose {
        StreamMode::Inherit
    } else {
        StreamMode::Capture
    };
    Invocation { program: String::from_str(program), args, stdout: mode, stderr: mode }
}

/// What a finished child process left behind.
pub struct ExecutionResult {
    pub succeeded: bool,
    pub stdout: Vec<u8>,
    pub stderr: Vec<u8>,
    pub elapsed_ms: u64,
}

impl ExecutionResult {
    /// The result of a run of `invocation`: a stream that was not captured
    /// leaves its buffer empty, whatever was read.
    pub fn from_run(
        invocation: &Invocation,
        succeeded: bool,
        stdout: Vec<u8>,
        stderr: Vec<u8>,
        elapsed_ms: u64,
    ) -> (r: ExecutionResult)
        ensures
            r.succeeded == succeeded,
            r.elapsed_ms == elapsed_ms,
            r.stdout@ == (if invocation.stdout == StreamMode::Capture {
                stdout@
            } else {
                Seq::<u8>::empty()
            }),
            r.stderr@ == (if invocation.stderr == StreamMode::Capture {
                stderr@
            } else {
                Seq::<u8>::empty()
            }),
    {
        let stdout = match invocation.stdout {
            StreamMode::Capture => stdout,
            StreamMode::Inherit => Vec::new(),
        };
        let stderr = match invocation.stderr {
            StreamMode::Capture => stderr,
            StreamMode::Inherit => Vec::new(),
        };
        ExecutionResult { succeeded, stdout, stderr, elapsed_ms }
    }
}

/// A run planned by `tool_invocation` and recorded by
/// `ExecutionResult::from_run`: with verbosity off nothing goes to the
/// parent's streams; with it on nothing is captured, whatever the child wrote.
pub proof fn lemma_verbosity_separates_streams(
    verbose: bool,
    inv: Invocation,
    read_out: Seq<u8>,
    read_err: Seq<u8>,
    res: ExecutionResult,
)
    requires
        inv.stdout == mode_for(verbose),
        inv.stderr == mode_for(verbose),
        res.stdout@ == (if inv.stdout == StreamMode::Capture {
            read_out
        } else {
            Seq::<u8>::empty()
        }),
        res.stderr@ == (if inv.stderr == StreamMode::Capture {
            read_err
        } else {
            Seq::<u8>::empty()
        }),
    ensures
        !verbose ==> inv.stdout != StreamMode::Inherit && inv.stderr != StreamMode::Inherit,
        !verbose ==> res.stdout@ == read_out && res.stderr@ == read_err,
        verbose ==> res.stdout@.len() == 0 && res.stderr@.len() == 0,
{
}

} // verus!
