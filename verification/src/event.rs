use vstd::prelude::*;

verus! {

/// Read-only snapshot of one fatal condition: where it arose and what it
/// said. The same snapshot is handed unchanged to every handler that runs
/// for the event.
pub struct ErrorInfo {
    /// The message carried by the fatal condition.
    pub message: String,
    /// Source file in which the condition arose, empty when unknown.
    pub file: String,
    /// Line within `file`, zero when unknown.
    pub line: u32,
    /// Column within `line`, zero when unknown.
    pub column: u32,
}

/// Error a handler returns when it cannot complete its work. The chain
/// absorbs it: the message is logged to the standard error stream and the
/// error is never re-raised, so one handler's failure cannot become a second
/// fatal condition.
pub struct HandlerError {
    /// Text logged as the second line of the diagnostic.
    pub message: String,
}

} // verus!
