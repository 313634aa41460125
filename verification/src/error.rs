//! The errors that the executor reports.

use vstd::prelude::*;
use vstd::string::StringExecFns;

verus! {

/// Why the heap allocator refused a request.
#[derive(Debug)]
pub enum AllocatorError {
    /// More was asked for than one allocation may hold.
    RequestedAllocationTooLarge,
    /// The heap has no room left.
    AllocatorOutOfSpace,
    /// The memory is smaller than the allocator has seen it before.
    MemoryShrinked,
    /// Another failure, described by its message.
    Other(String),
}

/// A backtrace of guest frames, as text.
#[derive(Debug)]
pub struct Backtrace {
    pub backtrace_string: String,
}

/// An error message with the backtrace that belongs to it.
#[derive(Debug)]
pub struct MessageWithBacktrace {
    pub message: String,
    pub backtrace: Option<Backtrace>,
}

/// An error met while a runtime or an instance is put together.
#[derive(Debug)]
pub enum WasmError {
    Other(String),
}

/// An error met while a call is made.
#[derive(Debug)]
pub enum Error {
    /// A failure described by its message only.
    Other(String),
    /// The heap allocator refused a request.
    Allocator(AllocatorError),
    /// The instance exports no indirect function table.
    NoTable,
    /// The table has no slot with this index.
    NoTableEntryWithIndex(u32),
    /// The table slot with this index holds no function.
    FunctionRefIsNull(u32),
    /// Putting the runtime or the instance together failed.
    RuntimeConstruction(WasmError),
    /// The call ended because host code reported a fatal condition.
    AbortedDueToPanic(MessageWithBacktrace),
    /// The call ended because the guest trapped.
    AbortedDueToTrap(MessageWithBacktrace),
}

impl AllocatorError {
    /// The text that describes the error.
    pub open spec fn text(&self) -> Seq<char> {
        match self {
            AllocatorError::RequestedAllocationTooLarge => "Requested allocation size is too large"@,
            AllocatorError::AllocatorOutOfSpace => "Allocator ran out of space"@,
            AllocatorError::MemoryShrinked => "Shrinking of the underlying memory is observed"@,
            AllocatorError::Other(m) => "Other: "@ + m@,
        }
    }

    /// The text that describes the error.
    pub fn to_string(&self) -> (r: String)
        ensures
            r@ == self.text(),
    {
        match self {
            AllocatorError::RequestedAllocationTooLarge => {
                "Requested allocation size is too large".to_owned()
            },
            AllocatorError::AllocatorOutOfSpace => "Allocator ran out of space".to_owned(),
            AllocatorError::MemoryShrinked => {
                "Shrinking of the underlying memory is observed".to_owned()
            },
            AllocatorError::Other(m) => {
                let mut text = "Other: ".to_owned();
                text.append(m.as_str());
                text
            },
        }
    }
}

impl Error {
    /// Whether this is `Other` with exactly the message `text`.
    pub open spec fn is_other(&self, text: Seq<char>) -> bool {
        self matches Error::Other(m) && m@ == text
    }

    /// Whether this is a construction error with exactly the message `text`.
    pub open spec fn is_construction(&self, text: Seq<char>) -> bool {
        self matches Error::RuntimeConstruction(WasmError::Other(m)) && m@ == text
    }
}

impl WasmError {

    /// The message that the error carries.
    pub open spec fn text(&self) -> Seq<char> {
        match self {
            WasmError::Other(m) => m@,
        }
    }

    /// The message that the error carries.
    pub fn message(&self) -> (r: &String)
        ensures
            r@ == self.text(),
    {
        match self {
            WasmError::Other(m) => m,
        }
    }
}

} // verus!
