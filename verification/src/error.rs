//! The closed set of outcomes that every fallible operation reports.

use vstd::prelude::*;

verus! {

/// What an operation of the engine can report.
#[derive(Debug, Clone, Copy, PartialEq, Eq, Structural)]
pub enum CoroutineError {
    /// The operation succeeded.
    Success,
    /// A failure with no more specific kind.
    GenericError,
    /// A payload pointer was null.
    InvalidPointer,
    /// The handle names no live control block.
    InvalidCoroutine,
    /// The coroutine was asked to resume while not suspended.
    NotSuspended,
    /// A yield was asked for while the coroutine was not running.
    NotRunning,
    /// The platform could not prepare a context.
    MakeContextError,
    /// The platform could not switch contexts.
    SwitchContextError,
    /// The storage channel cannot take, or does not hold, that many bytes.
    NotEnoughSpace,
    /// The stack allocator could not satisfy the request.
    OutOfMemory,
    /// An argument is outside the documented range.
    InvalidArguments,
    /// The operation is illegal in the coroutine's present state.
    InvalidOperation,
    /// The coroutine ran past the end of its stack.
    StackOverflow,
    /// A native code outside the documented set.
    Unknown,
}

/// The largest native result code with a meaning of its own.
pub const MAX_RESULT_CODE: u32 = 12;

/// The outcome that a native result code stands for. Codes count the
/// outcomes in the order of their declaration, starting with success at
/// zero; a code past the last one reads as `Unknown`.
pub open spec fn error_of_code(code: u32) -> CoroutineError {
    match code {
        0 => CoroutineError::Success,
        1 => CoroutineError::GenericError,
        2 => CoroutineError::InvalidPointer,
        3 => CoroutineError::InvalidCoroutine,
        4 => CoroutineError::NotSuspended,
        5 => CoroutineError::NotRunning,
        6 => CoroutineError::MakeContextError,
        7 => CoroutineError::SwitchContextError,
        8 => CoroutineError::NotEnoughSpace,
        9 => CoroutineError::OutOfMemory,
        10 => CoroutineError::InvalidArguments,
        11 => CoroutineError::InvalidOperation,
        12 => CoroutineError::StackOverflow,
        _ => CoroutineError::Unknown,
    }
}

/// The text that describes an outcome.
pub open spec fn message_of(e: CoroutineError) -> Seq<char> {
    match e {
        CoroutineError::Success => "No error"@,
        CoroutineError::GenericError => "Generic error"@,
        CoroutineError::InvalidPointer => "Invalid pointer"@,
        CoroutineError::InvalidCoroutine => "Invalid coroutine"@,
        CoroutineError::NotSuspended => "Coroutine not suspended"@,
        CoroutineError::NotRunning => "Coroutine not running"@,
        CoroutineError::MakeContextError => "Make context error"@,
        CoroutineError::SwitchContextError => "Switch context error"@,
        CoroutineError::NotEnoughSpace => "Not enough space"@,
        CoroutineError::OutOfMemory => "Out of memory"@,
        CoroutineError::InvalidArguments => "Invalid arguments"@,
        CoroutineError::InvalidOperation => "Invalid operation"@,
        CoroutineError::StackOverflow => "Stack overflow"@,
        CoroutineError::Unknown => "Unknown error"@,
    }
}

/// What a native call that answered `code` amounts to: success for zero,
/// otherwise the failure that the code stands for.
pub open spec fn outcome_of_code(code: u32) -> Result<(), CoroutineError> {
    if code == 0 {
        Ok(())
    } else {
        Err(error_of_code(code))
    }
}

impl CoroutineError {
    /// Decodes a native result code.
    pub fn from_raw(result: u32) -> (r: Self)
        ensures
            r == error_of_code(result),
    {
        match result {
            0 => CoroutineError::Success,
            1 => CoroutineError::GenericError,
            2 => CoroutineError::InvalidPointer,
            3 => CoroutineError::InvalidCoroutine,
            4 => CoroutineError::NotSuspended,
            5 => CoroutineError::NotRunning,
            6 => CoroutineError::MakeContextError,
            7 => CoroutineError::SwitchContextError,
            8 => CoroutineError::NotEnoughSpace,
            9 => CoroutineError::OutOfMemory,
            10 => CoroutineError::InvalidArguments,
            11 => CoroutineError::InvalidOperation,
            12 => CoroutineError::StackOverflow,
            _ => CoroutineError::Unknown,
        }
    }

    /// Turns the result code of a native call into a `Result`.
    pub fn check(result: u32) -> (r: Result<(), CoroutineError>)
        ensures
            r == outcome_of_code(result),
    {
        if result == 0 {
            Ok(())
        } else {
            Err(CoroutineError::from_raw(result))
        }
    }

    /// The text that describes this outcome.
    pub fn message(&self) -> (s: String)
        ensures
            s@ == message_of(*self),
    {
        match self {
            CoroutineError::Success => "No error".to_owned(),
            CoroutineError::GenericError => "Generic error".to_owned(),
            CoroutineError::InvalidPointer => "Invalid pointer".to_owned(),
            CoroutineError::InvalidCoroutine => "Invalid coroutine".to_owned(),
            CoroutineError::NotSuspended => "Coroutine not suspended".to_owned(),
            CoroutineError::NotRunning => "Coroutine not running".to_owned(),
            CoroutineError::MakeContextError => "Make context error".to_owned(),
            CoroutineError::SwitchContextError => "Switch context error".to_owned(),
            CoroutineError::NotEnoughSpace => "Not enough space".to_owned(),
            CoroutineError::OutOfMemory => "Out of memory".to_owned(),
            CoroutineError::InvalidArguments => "Invalid arguments".to_owned(),
            CoroutineError::InvalidOperation => "Invalid operation".to_owned(),
            CoroutineError::StackOverflow => "Stack overflow".to_owned(),
            CoroutineError::Unknown => "Unknown error".to_owned(),
        }
    }
}

/// No two codes up to the last documented one decode to the same outcome,
/// and `Unknown` is what exactly the codes past it decode to.
pub proof fn codes_are_distinct(a: u32, b: u32)
    ensures
        a <= MAX_RESULT_CODE && b <= MAX_RESULT_CODE && error_of_code(a) == error_of_code(b)
            ==> a == b,
        error_of_code(a) == CoroutineError::Unknown <==> a > MAX_RESULT_CODE,
        error_of_code(a) == CoroutineError::Success <==> a == 0,
{
}

} // verus!
