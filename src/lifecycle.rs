use vstd::prelude::*;
use crate::types::{io_error_spec, from_io_error, Error};

verus! {

/// The steps of opening a device, in order.
#[derive(Clone, Copy, Debug, PartialEq, Eq, Structural)]
pub enum OpenStep {
    /// Open the path, without becoming its controlling terminal, non-blocking.
    OpenDevice,
    /// Take exclusive access.
    AcquireExclusive,
    /// Clear the non-blocking flag.
    ClearNonBlocking,
    /// Read the attributes, put them in raw mode and write them back.
    ApplySettings,
}

/// What the opener does after a step.
#[derive(Clone, Copy, Debug, PartialEq, Eq, Structural)]
pub enum OpenAction {
    /// Perform this step next.
    Run(OpenStep),
    /// The port is open and in a known state.
    Ready,
    /// Give up with this error; when `close` is set, a descriptor was obtained
    /// and must be released (exclusive access, then the descriptor) first.
    Abort { error: Error, close: bool },
}

/// The step after a successful one.
pub open spec fn next_step(step: OpenStep) -> OpenAction {
    match step {
        OpenStep::OpenDevice => OpenAction::Run(OpenStep::AcquireExclusive),
        OpenStep::AcquireExclusive => OpenAction::Run(OpenStep::ClearNonBlocking),
        OpenStep::ClearNonBlocking => OpenAction::Run(OpenStep::ApplySettings),
        OpenStep::ApplySettings => OpenAction::Ready,
    }
}

/// Whether a descriptor exists once a step has been attempted.
pub open spec fn holds_descriptor(step: OpenStep) -> bool {
    step != OpenStep::OpenDevice
}

/// The error reported when a step fails: a device that cannot be opened or
/// acquired is reported as `NoDevice`, other failures keep their class.
pub open spec fn open_error(step: OpenStep, e: Error) -> Error {
    match step {
        OpenStep::OpenDevice | OpenStep::AcquireExclusive => Error::NoDevice,
        _ => e,
    }
}

/// The first step of opening a device.
pub fn first_open_step() -> (r: OpenStep)
    ensures
        r == OpenStep::OpenDevice,
{
    OpenStep::OpenDevice
}

/// Decides what follows a step of opening a device, given its outcome. Any
/// failure after the descriptor was obtained closes it.
pub fn open_next(step: OpenStep, outcome: Result<(), Error>) -> (r: OpenAction)
    ensures
        outcome is Ok ==> r == next_step(step),
        outcome matches Err(e) ==> r == (OpenAction::Abort {
            error: open_error(step, e),
            close: holds_descriptor(step),
        }),
{
    match outcome {
        Ok(()) => match step {
            OpenStep::OpenDevice => OpenAction::Run(OpenStep::AcquireExclusive),
            OpenStep::AcquireExclusive => OpenAction::Run(OpenStep::ClearNonBlocking),
            OpenStep::ClearNonBlocking => OpenAction::Run(OpenStep::ApplySettings),
            OpenStep::ApplySettings => OpenAction::Ready,
        },
        Err(e) => {
            let error = match step {
                OpenStep::OpenDevice | OpenStep::AcquireExclusive => Error::NoDevice,
                _ => e,
            };
            OpenAction::Abort { error, close: step != OpenStep::OpenDevice }
        },
    }
}

/// Checks that a device path can be handed to the operating system: it
/// must hold no NUL byte.
pub fn check_device_path(path: &[u8]) -> (r: Result<(), Error>)
    ensures
        r is Ok <==> (forall|i: int| 0 <= i < path@.len() ==> path@[i] != 0u8),
        r is Err ==> r == Err::<(), Error>(Error::InvalidInput),
{
    let mut i: usize = 0;
    while i < path.len()
        invariant
            i <= path@.len(),
            forall|j: int| 0 <= j < i ==> path@[j] != 0u8,
        decreases path@.len() - i,
    {
        if path[i] == 0 {
            return Err(Error::InvalidInput);
        }
        i = i + 1;
    }
    Ok(())
}

/// The outcome of waiting for a descriptor to become readable or writable.
#[derive(Clone, Copy, Debug, PartialEq, Eq, Structural)]
pub enum Readiness {
    Ready,
    TimedOut,
    /// The wait itself failed, with the operating system's code if known.
    Failed(Option<i32>),
}

/// What a read or write does after its wait: `None` to go on with the
/// transfer, or the result to return at once.
pub open spec fn after_wait_spec(w: Readiness) -> Option<Result<usize, Error>> {
    match w {
        Readiness::Ready => None,
        Readiness::TimedOut => Some(Ok(0)),
        Readiness::Failed(code) => Some(Err(io_error_spec(code))),
    }
}

/// Decides what a read or write does after its wait: a timeout is no error
/// but a transfer of zero bytes.
pub fn after_wait(w: Readiness) -> (r: Option<Result<usize, Error>>)
    ensures
        r == after_wait_spec(w),
{
    match w {
        Readiness::Ready => None,
        Readiness::TimedOut => Some(Ok(0)),
        Readiness::Failed(code) => Some(Err(from_io_error(code))),
    }
}

/// The result of one raw read or write: the count it returned when that is
/// not negative, else the failure given by the operating system's code.
pub fn transfer_result(len: isize, code: Option<i32>) -> (r: Result<usize, Error>)
    ensures
        len >= 0 ==> r == Ok::<usize, Error>(len as usize),
        len < 0 ==> r == Err::<usize, Error>(io_error_spec(code)),
{
    if len >= 0 {
        Ok(len as usize)
    } else {
        Err(from_io_error(code))
    }
}

} // verus!
