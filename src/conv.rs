//! Conversions: the invocation of the tool and what its outcome means.
//!
//! Running the process is left to the caller. The library decides what is run
//! (the program, the ordered arguments, whether standard output is captured)
//! and how the process's report maps to a result.

use vstd::prelude::*;
use vstd::string::StringExecFns;

use crate::args::{decimal, decimal_string, ArgList};
use crate::toktx::ToKtx;

verus! {

/// Declares `std::io::Error` so that errors can carry it; nothing is assumed
/// of its contents.
#[verifier::external_type_specification]
#[verifier::external_body]
pub struct ExIoError(std::io::Error);

/// Where the converted texture goes.
#[derive(Debug, Clone, PartialEq)]
pub enum Destination {
    /// The tool writes to standard output, which is captured.
    Memory,
    /// The tool writes the file at this path itself.
    Path(String),
}

impl Destination {
    /// The positional token that tells the tool where to write: `-` for
    /// standard output, else the path unchanged.
    pub open spec fn token(&self) -> Seq<char> {
        match self {
            Destination::Memory => "-"@,
            Destination::Path(p) => p@,
        }
    }

    /// The positional token that tells the tool where to write.
    pub fn to_token(&self) -> (r: String)
        ensures
            r@ == self.token(),
    {
        match self {
            Destination::Memory => String::from_str("-"),
            Destination::Path(p) => p.clone(),
        }
    }
}

/// Everything needed to start the tool for one conversion. Standard input is
/// always empty and standard error is always captured.
pub struct Invocation {
    /// The program to run.
    pub program: String,
    /// The arguments, in order.
    pub args: ArgList,
    /// Whether standard output is captured (else it is discarded).
    pub capture_stdout: bool,
}

/// How the process ended: its exit code, absent when it was ended by a signal.
#[derive(Debug, Clone, Copy, PartialEq, Eq, Structural)]
pub struct ExitStatus {
    pub code: Option<i32>,
}

impl ExitStatus {
    /// Success is a zero exit code.
    pub open spec fn spec_success(&self) -> bool {
        self.code == Some(0i32)
    }

    /// Whether the process exited with code zero.
    pub fn success(&self) -> (r: bool)
        ensures
            r == self.spec_success(),
    {
        match self.code {
            Some(c) => c == 0,
            None => false,
        }
    }
}

/// What a finished process reported.
#[derive(Debug, Clone)]
pub struct ProcessOutput {
    pub status: ExitStatus,
    pub stdout: Vec<u8>,
    pub stderr: Vec<u8>,
}

/// Conversion error.
#[derive(Debug)]
pub enum ToKtxError {
    /// The input bytes could not be written to a temporary file.
    SourcePath(std::io::Error),
    /// The process could not be started.
    Spawn(std::io::Error),
    /// The process exited unsuccessfully.
    ExitStatus {
        /// How the process ended.
        status: ExitStatus,
        /// Everything the process wrote to standard error.
        stderr: Vec<u8>,
    },
}

/// A result with [`ToKtxError`] as the error type.
pub type ToKtxResult<T> = Result<T, ToKtxError>;

/// Maps what the process reported to the conversion's result: a failure to
/// start is [`ToKtxError::Spawn`]; an unsuccessful exit is
/// [`ToKtxError::ExitStatus`] with the status and standard error; a
/// successful one gives the captured standard output.
pub fn format_output(reported: Result<ProcessOutput, std::io::Error>) -> (r: ToKtxResult<Vec<u8>>)
    ensures
        reported matches Err(e) ==> (r matches Err(ToKtxError::Spawn(f)) && f == e),
        reported is Ok && reported->Ok_0.status.spec_success() ==> (r matches Ok(v) && v
            == reported->Ok_0.stdout),
        reported is Ok && !reported->Ok_0.status.spec_success() ==> (r matches Err(
            ToKtxError::ExitStatus { status, stderr },
        ) && status == reported->Ok_0.status && stderr == reported->Ok_0.stderr),
{
    match reported {
        Err(e) => Err(ToKtxError::Spawn(e)),
        Ok(o) => {
            if o.status.success() {
                Ok(o.stdout)
            } else {
                Err(ToKtxError::ExitStatus { status: o.status, stderr: o.stderr })
            }
        },
    }
}

impl ToKtx {
    /// The program to run: the configured path, else `toktx`.
    pub open spec fn program(&self) -> Seq<char> {
        match self.path_to_toktx {
            Some(p) => p@,
            None => "toktx"@,
        }
    }

    /// The arguments of a conversion: the configuration's tokens, then the
    /// destination token, then the input path.
    pub open spec fn invocation_args(&self, dest: Destination, input: Seq<char>) -> Seq<
        Seq<char>,
    > {
        self.tokens() + seq![dest.token(), input]
    }

    /// The invocation that converts the file at `input` to `dest`.
    pub fn invocation(&self, dest: &Destination, input: &str) -> (r: Invocation)
        ensures
            r.program@ == self.program(),
            r.args@ == self.invocation_args(*dest, input@),
            r.capture_stdout == (*dest is Memory),
    {
        let program = match &self.path_to_toktx {
            Some(p) => p.clone(),
            None => String::from_str("toktx"),
        };
        let mut args = self.to_args();
        args.push(dest.to_token());
        args.push_str(input);
        assert(args@ =~= self.invocation_args(*dest, input@));
        let capture_stdout = match dest {
            Destination::Memory => true,
            Destination::Path(_) => false,
        };
        Invocation { program, args, capture_stdout }
    }

    /// The invocation for a conversion whose input was staged at a path, or
    /// [`ToKtxError::SourcePath`] when staging the input failed.
    pub fn command(&self, dest: &Destination, staged: Result<String, std::io::Error>) -> (r:
        ToKtxResult<Invocation>)
        ensures
            staged matches Err(e) ==> (r matches Err(ToKtxError::SourcePath(f)) && f == e),
            staged matches Ok(p) ==> (r matches Ok(inv) && inv.program@ == self.program()
                && inv.args@ == self.invocation_args(*dest, p@) && inv.capture_stdout == (
            *dest is Memory)),
    {
        match staged {
            Err(e) => Err(ToKtxError::SourcePath(e)),
            Ok(p) => Ok(self.invocation(dest, p.as_str())),
        }
    }
}

/// The name of a temporary file: `toktx-rs-<counter>-<id>.ktx2`.
pub open spec fn temp_name(counter: u32, id: Seq<char>) -> Seq<char> {
    "toktx-rs-"@ + decimal(counter as nat) + "-"@ + id + ".ktx2"@
}

/// The name of a temporary file from a counter value and an identifier.
pub fn temp_file_name(counter: u32, id: &str) -> (r: String)
    ensures
        r@ == temp_name(counter, id@),
{
    let mut s = String::from_str("toktx-rs-");
    s.append(decimal_string(counter as u64).as_str());
    s.append("-");
    s.append(id);
    s.append(".ktx2");
    s
}

/// The text of a freshly generated random (version 4) UUID: 36 characters,
/// lowercase hexadecimal digits in groups of 8, 4, 4, 4 and 12, joined by `-`.
pub open spec fn is_uuid_text(s: Seq<char>) -> bool {
    &&& s.len() == 36
    &&& forall|i: int|
        0 <= i < 36 ==> if i == 8 || i == 13 || i == 18 || i == 23 {
            #[trigger] s[i] == '-'
        } else {
            ('0' <= s[i] && s[i] <= '9') || ('a' <= s[i] && s[i] <= 'f')
        }
}

/// Relies on `uuid::Uuid::new_v4` and the `Display` impl of `uuid::Uuid`: a
/// random UUID, written in its lowercase hyphenated form. (It panics only if
/// the operating system's random source fails.)
#[verifier::external_body]
fn random_uuid_text() -> (r: String)
    ensures
        is_uuid_text(r@),
{
    uuid::Uuid::new_v4().to_string()
}

/// A fresh temporary file name for counter value `counter`, with a random
/// identifier.
pub fn fresh_temp_file_name(counter: u32) -> (r: String)
    ensures
        exists|id: Seq<char>| is_uuid_text(id) && r@ == temp_name(counter, id),
{
    let id = random_uuid_text();
    temp_file_name(counter, id.as_str())
}

/// A conversion to memory and a conversion to a file, of one configuration
/// and one input, run the same program with the same arguments but for the
/// destination token, which stands right after the configuration's tokens
/// and right before the input path.
pub proof fn lemma_destinations_differ_in_one_token(c: ToKtx, path: String, input: Seq<char>)
    ensures
        c.invocation_args(Destination::Memory, input).len() == c.tokens().len() + 2,
        c.invocation_args(Destination::Path(path), input).len() == c.tokens().len() + 2,
        c.invocation_args(Destination::Memory, input)[c.tokens().len() as int] == "-"@,
        c.invocation_args(Destination::Path(path), input)[c.tokens().len() as int] == path@,
        forall|i: int|
            0 <= i < c.tokens().len() + 2 && i != c.tokens().len() ==> #[trigger] c.invocation_args(
                Destination::Memory,
                input,
            )[i] == c.invocation_args(Destination::Path(path), input)[i],
        c.invocation_args(Destination::Memory, input).last() == input,
{
}

} // verus!
