//! What the library asks to run, and what running it gave back.
use vstd::prelude::*;

verus! {

/// A process to start: `program` with `args`, killed after `timeout_ms`
/// milliseconds when that is set. With `spawn_only` the caller starts it and
/// does not wait for its output.
pub struct AdbCommand {
    pub program: String,
    pub args: Vec<String>,
    pub timeout_ms: Option<u64>,
    pub spawn_only: bool,
}

/// The mathematical content of an [`AdbCommand`].
pub struct CommandView {
    pub program: Seq<char>,
    pub args: Seq<Seq<char>>,
    pub timeout_ms: Option<u64>,
    pub spawn_only: bool,
}

impl View for AdbCommand {
    type V = CommandView;

    open spec fn view(&self) -> CommandView {
        CommandView {
            program: self.program@,
            args: self.args.deep_view(),
            timeout_ms: self.timeout_ms,
            spawn_only: self.spawn_only,
        }
    }
}

/// How a process ended: its exit code, or the signal that stopped it.
#[derive(Clone, Copy, PartialEq, Eq, Debug)]
pub struct ExitStatus {
    pub code: Option<i32>,
    pub signal: Option<i32>,
}

/// Number of the interrupt signal, `SIGINT`.
pub const SIGINT: i32 = 2;

/// Number of the kill signal, `SIGKILL`.
pub const SIGKILL: i32 = 9;

impl ExitStatus {
    /// Success is an exit code of zero.
    pub open spec fn spec_success(self) -> bool {
        self.code == Some(0i32)
    }

    /// Whether the process exited with code zero.
    pub fn success(&self) -> (b: bool)
        ensures
            b == self.spec_success(),
    {
        match self.code {
            Some(c) => c == 0,
            None => false,
        }
    }
}

/// What a finished process gave back.
pub struct ProcessOutput {
    pub status: ExitStatus,
    pub stdout: Vec<u8>,
    pub stderr: Vec<u8>,
}

impl ProcessOutput {
    /// What the process wrote on standard output.
    pub fn stdout(&self) -> (r: Vec<u8>)
        ensures
            r@ == self.stdout@,
    {
        self.stdout.clone()
    }

    /// What the process wrote on standard error.
    pub fn stderr(&self) -> (r: Vec<u8>)
        ensures
            r@ == self.stderr@,
    {
        self.stderr.clone()
    }

    /// Whether the process wrote anything on standard error.
    pub fn has_stderr(&self) -> (b: bool)
        ensures
            b == (self.stderr@.len() > 0),
    {
        self.stderr.len() > 0
    }

    /// Whether the process wrote anything on standard output.
    pub fn has_stdout(&self) -> (b: bool)
        ensures
            b == (self.stdout@.len() > 0),
    {
        self.stdout.len() > 0
    }

    /// Whether the process did not exit with code zero.
    pub fn is_error(&self) -> (b: bool)
        ensures
            b == !self.status.spec_success(),
    {
        !self.status.success()
    }

    /// The signal that stopped the process, if one did.
    pub fn signal(&self) -> (r: Option<i32>)
        ensures
            r == self.status.signal,
    {
        self.status.signal
    }

    /// Whether a signal stopped the process.
    pub fn has_signal(&self) -> (b: bool)
        ensures
            b == self.status.signal is Some,
    {
        self.status.signal.is_some()
    }

    /// Whether the process exited with code zero.
    pub fn is_success(&self) -> (b: bool)
        ensures
            b == self.status.spec_success(),
    {
        self.status.success()
    }

    /// Whether the interrupt signal stopped the process.
    pub fn is_interrupt(&self) -> (b: bool)
        ensures
            b == (self.status.signal == Some(SIGINT)),
    {
        match self.status.signal {
            Some(s) => s == SIGINT,
            None => false,
        }
    }

    /// Whether the kill signal stopped the process.
    pub fn is_kill(&self) -> (b: bool)
        ensures
            b == (self.status.signal == Some(SIGKILL)),
    {
        match self.status.signal {
            Some(s) => s == SIGKILL,
            None => false,
        }
    }
}

/// A list of literal arguments as texts.
pub open spec fn texts(v: Seq<&str>) -> Seq<Seq<char>> {
    Seq::new(v.len(), |i: int| v[i]@)
}

/// Owned copies of literal arguments.
pub fn strings(v: &[&str]) -> (r: Vec<String>)
    ensures
        r.deep_view() == texts(v@),
{
    let mut r: Vec<String> = Vec::new();
    let mut i: usize = 0;
    while i < v.len()
        invariant
            i <= v@.len(),
            r.deep_view() == texts(v@.subrange(0, i as int)),
        decreases v@.len() - i,
    {
        let s = v[i].to_owned();
        proof {
            assert(texts(v@.subrange(0, i + 1)) =~= texts(v@.subrange(0, i as int)).push(v@[i as int]@));
        }
        r.push(s);
        proof {
            assert(r.deep_view() =~= texts(v@.subrange(0, i + 1)));
        }
        i = i + 1;
    }
    assert(v@.subrange(0, v@.len() as int) =~= v@);
    r
}

/// A list of one owned argument.
pub fn single(s: &str) -> (r: Vec<String>)
    ensures
        r.deep_view() == seq![s@],
{
    let mut r: Vec<String> = Vec::new();
    r.push(s.to_owned());
    assert(r.deep_view() =~= seq![s@]);
    r
}

/// A list of two owned arguments.
pub fn pair(a: &str, b: String) -> (v: Vec<String>)
    ensures
        v.deep_view() == seq![a@, b@],
{
    let mut v: Vec<String> = Vec::new();
    v.push(a.to_owned());
    v.push(b);
    assert(v.deep_view() =~= seq![a@, b@]);
    v
}

/// `a` followed by `b`.
pub fn concat(a: Vec<String>, b: Vec<String>) -> (r: Vec<String>)
    ensures
        r.deep_view() == a.deep_view() + b.deep_view(),
{
    let mut a = a;
    let mut b = b;
    let ghost a0 = a.deep_view();
    let ghost b0 = b.deep_view();
    a.append(&mut b);
    assert(a.deep_view() =~= a0 + b0);
    a
}

/// `a` with `s` at the end.
pub fn push_str(a: Vec<String>, s: String) -> (r: Vec<String>)
    ensures
        r.deep_view() == a.deep_view().push(s@),
{
    let mut a = a;
    let ghost a0 = a.deep_view();
    a.push(s);
    assert(a.deep_view() =~= a0.push(s@));
    a
}

} // verus!

verus! {

/// Reading a finished process as a success or a failure.
pub trait OutputResult {
    fn to_result(&self) -> crate::error::Result<Vec<u8>>;

    fn try_to_result(&self) -> crate::error::Result<Vec<u8>>;
}

/// The failure that an output stands for: its status and what it wrote.
pub open spec fn output_error(o: ProcessOutput, e: crate::error::AdbError) -> bool {
    e matches crate::error::AdbError::CmdError(c) && c.status == Some(o.status) && c.stdout@ == o.stdout@
        && c.stderr@ == o.stderr@
}

fn failure(o: &ProcessOutput) -> (e: crate::error::AdbError)
    ensures
        output_error(*o, e),
{
    crate::error::AdbError::CmdError(
        crate::error::CmdError { status: Some(o.status), stdout: o.stdout.clone(), stderr: o.stderr.clone() },
    )
}

impl OutputResult for ProcessOutput {
    /// The standard output of a process that exited with code zero and wrote
    /// nothing on standard error; any other is a `CmdError`.
    fn to_result(&self) -> (r: crate::error::Result<Vec<u8>>)
        ensures
            if self.status.spec_success() && self.stderr@.len() == 0 {
                r matches Ok(v) && v@ == self.stdout@
            } else {
                r matches Err(e) && output_error(*self, e)
            },
    {
        if self.status.success() && self.stderr.len() == 0 {
            Ok(self.stdout.clone())
        } else {
            Err(failure(self))
        }
    }

    /// The standard output of a process that a signal stopped (it has no
    /// exit code) and that wrote nothing on standard error; any other is a
    /// `CmdError`.
    fn try_to_result(&self) -> (r: crate::error::Result<Vec<u8>>)
        ensures
            if self.status.code is None && self.stderr@.len() == 0 {
                r matches Ok(v) && v@ == self.stdout@
            } else {
                r matches Err(e) && output_error(*self, e)
            },
    {
        if self.status.code.is_none() && self.stderr.len() == 0 {
            Ok(self.stdout.clone())
        } else {
            Err(failure(self))
        }
    }
}

/// Whether an output counts as a failure for the `am` and `pm` operations:
/// a process that did not exit with code zero, unless the interrupt or the
/// kill signal stopped it.
pub open spec fn failed_run(o: ProcessOutput) -> bool {
    !o.status.spec_success() && o.status.signal != Some(SIGKILL) && o.status.signal != Some(SIGINT)
}

/// Nothing for a run that did not fail (see [`failed_run`]); a `CmdError`
/// with the status and what it wrote for one that did.
pub fn handle_result(o: &ProcessOutput) -> (r: crate::error::Result<()>)
    ensures
        if failed_run(*o) {
            r matches Err(e) && output_error(*o, e)
        } else {
            r is Ok
        },
{
    if o.is_error() && !o.is_kill() && !o.is_interrupt() {
        Err(failure(o))
    } else {
        Ok(())
    }
}

impl ProcessOutput {
    /// The output itself for a run that did not fail (see
    /// [`failed_run`]); for one that did, a `CmdError` with its status and
    /// what it wrote on standard error.
    pub fn try_from(value: ProcessOutput) -> (r: crate::error::Result<ProcessOutput>)
        ensures
            if failed_run(value) {
                r matches Err(crate::error::AdbError::CmdError(c)) && c.status == Some(value.status)
                    && c.stdout@.len() == 0 && c.stderr@ == value.stderr@
            } else {
                r matches Ok(o) && o == value
            },
    {
        if value.is_error() && !value.is_kill() && !value.is_interrupt() {
            Err(crate::error::AdbError::CmdError(crate::error::CmdError::from_err(value.status, value.stderr)))
        } else {
            Ok(value)
        }
    }
}

/// Nothing for a process that exited with code zero; a `CmdError` with its
/// status and what it wrote otherwise.
pub fn success_result(o: &ProcessOutput) -> (r: crate::error::Result<()>)
    ensures
        if o.status.spec_success() {
            r is Ok
        } else {
            r matches Err(e) && output_error(*o, e)
        },
{
    if o.is_success() {
        Ok(())
    } else {
        Err(failure(o))
    }
}

/// Bytes read as text.
pub trait Vec8ToString {
    fn as_str(&self) -> Option<&str>;
}

impl Vec8ToString for Vec<u8> {
    /// The text the bytes encode, when they are valid UTF-8.
    fn as_str(&self) -> (r: Option<&str>)
        ensures
            r.is_some() == vstd::utf8::valid_utf8(self@),
            r matches Some(s) ==> s@ == vstd::utf8::decode_utf8(self@),
    {
        crate::outside::str_from_utf8(self.as_slice())
    }
}

} // verus!
