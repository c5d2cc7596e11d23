//! Errors of an exec dispatch and the classification of a launched process.
use vstd::prelude::*;

verus! {

/// Why an exec on one target did not succeed.
#[derive(Clone, Debug, PartialEq, Eq)]
pub enum ExecError {
    /// There is no active cluster context to run against.
    NoContext,
    /// The selected object is not a pod.
    NotPod,
    /// The exec tool ran and exited with a failure status.
    ExternalFailure(String),
    /// The exec tool's binary could not be found at launch.
    BinaryNotFound(String),
    /// Launching failed for another reason, with its description.
    Io(String),
}

/// Why a process could not be launched, as reported by the system.
#[derive(Clone, Debug, PartialEq, Eq)]
pub enum LaunchError {
    /// The program could not be located.
    NotFound,
    /// Any other launch failure, with its description.
    Other(String),
}

pub open spec fn no_context_text() -> Seq<char> {
    "Need an active context in order to exec."@
}

pub open spec fn not_pod_text() -> Seq<char> {
    "Exec only possible on pods"@
}

pub open spec fn abnormal_exit_text() -> Seq<char> {
    "kubectl exited abnormally"@
}

/// Whether a binary path is absolute, that is starts with `/`.
pub open spec fn is_absolute(binary: Seq<char>) -> bool {
    binary.len() > 0 && binary[0] == '/'
}

/// The message for a binary that could not be found; it asks whether the
/// file exists for an absolute path, and about PATH otherwise.
pub open spec fn not_found_text(binary: Seq<char>) -> Seq<char> {
    "Could not find kubectl binary: '"@ + binary + if is_absolute(binary) {
        "'. Does it exist?"@
    } else {
        "'. Is it in your PATH?"@
    }
}

/// The text shown to the operator for an error.
pub open spec fn error_text(e: ExecError) -> Seq<char> {
    match e {
        ExecError::NoContext => no_context_text(),
        ExecError::NotPod => not_pod_text(),
        ExecError::ExternalFailure(m) => m@,
        ExecError::BinaryNotFound(m) => m@,
        ExecError::Io(m) => m@,
    }
}

impl ExecError {
    /// The message shown to the operator for this error.
    pub fn message(&self) -> (r: String)
        ensures
            r@ == error_text(*self),
    {
        match self {
            ExecError::NoContext => String::from_str("Need an active context in order to exec."),
            ExecError::NotPod => String::from_str("Exec only possible on pods"),
            ExecError::ExternalFailure(m) => m.clone(),
            ExecError::BinaryNotFound(m) => m.clone(),
            ExecError::Io(m) => m.clone(),
        }
    }
}

/// Whether `binary` starts with `/`.
pub fn binary_is_absolute(binary: &str) -> (r: bool)
    ensures
        r == is_absolute(binary@),
{
    binary.unicode_len() > 0 && binary.get_char(0) == '/'
}

/// The message reported when the exec tool's binary is not found.
pub fn not_found_message(binary: &str) -> (r: String)
    ensures
        r@ == not_found_text(binary@),
{
    let mut m = String::from_str("Could not find kubectl binary: '");
    m.append(binary);
    if binary_is_absolute(binary) {
        m.append("'. Does it exist?");
    } else {
        m.append("'. Is it in your PATH?");
    }
    m
}

/// The error for a failed launch: a missing binary gets the path-dependent
/// message, any other failure keeps its description.
pub open spec fn launch_error_spec(binary: Seq<char>, e: LaunchError, r: ExecError) -> bool {
    match e {
        LaunchError::NotFound => r matches ExecError::BinaryNotFound(m) && m@ == not_found_text(
            binary,
        ),
        LaunchError::Other(d) => r matches ExecError::Io(m) && m@ == d@,
    }
}

/// Classifies a launch failure of the exec tool.
pub fn classify_launch_error(binary: &str, e: &LaunchError) -> (r: ExecError)
    ensures
        launch_error_spec(binary@, *e, r),
{
    match e {
        LaunchError::NotFound => ExecError::BinaryNotFound(not_found_message(binary)),
        LaunchError::Other(d) => ExecError::Io(d.clone()),
    }
}

/// Classifies a foreground run: `Ok(success)` is the exit status of the
/// finished process, `Err` a failure to launch it.
pub fn foreground_outcome(binary: &str, status: &Result<bool, LaunchError>) -> (r: Result<
    (),
    ExecError,
>)
    ensures
        *status == Ok::<bool, LaunchError>(true) <==> r is Ok,
        *status == Ok::<bool, LaunchError>(false) ==> (r matches Err(ExecError::ExternalFailure(m))
            && m@ == abnormal_exit_text()),
        *status matches Err(e) ==> (r matches Err(x) && launch_error_spec(binary@, e, x)),
{
    match status {
        Ok(true) => Ok(()),
        Ok(false) => Err(ExecError::ExternalFailure(String::from_str("kubectl exited abnormally"))),
        Err(e) => Err(classify_launch_error(binary, e)),
    }
}

/// Classifies a detached launch: a process that started is a success,
/// whatever it does afterwards; a launch failure is classified as in the
/// foreground.
pub fn terminal_outcome(binary: &str, started: &Result<(), LaunchError>) -> (r: Result<
    (),
    ExecError,
>)
    ensures
        started is Ok <==> r is Ok,
        *started matches Err(e) ==> (r matches Err(x) && launch_error_spec(binary@, e, x)),
{
    match started {
        Ok(()) => Ok(()),
        Err(e) => Err(classify_launch_error(binary, e)),
    }
}

} // verus!
