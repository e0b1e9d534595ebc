//! The envelope that answers each request: success with its data, or failure
//! with a stable code per operation.

use vstd::prelude::*;

verus! {

/// The operations that the service offers.
#[derive(Debug, Clone, Copy, PartialEq, Eq, Structural)]
pub enum Operation {
    AddComment,
    GetComments,
    GetRecentTopics,
}

/// The code that a failure of `op` is reported with.
pub open spec fn failure_code(op: Operation) -> u32 {
    match op {
        Operation::AddComment => 1,
        Operation::GetComments => 2,
        Operation::GetRecentTopics => 3,
    }
}

/// The message that a failure of `op` is reported with.
pub open spec fn failure_message(op: Operation) -> Seq<char> {
    match op {
        Operation::AddComment => "Failed to add comment"@,
        Operation::GetComments => "Failed to get comments"@,
        Operation::GetRecentTopics => "Failed to get recent topics"@,
    }
}

/// The HTTP status of a success of `op`: 201 where something was created.
pub open spec fn success_status(op: Operation) -> u16 {
    match op {
        Operation::AddComment => 201,
        _ => 200,
    }
}

/// The HTTP status of any failure.
pub const FAILURE_STATUS: u16 = 500;

impl Operation {
    pub fn failure_code(self) -> (r: u32)
        ensures
            r == failure_code(self),
    {
        match self {
            Operation::AddComment => 1,
            Operation::GetComments => 2,
            Operation::GetRecentTopics => 3,
        }
    }

    pub fn failure_message(self) -> (r: String)
        ensures
            r@ == failure_message(self),
    {
        match self {
            Operation::AddComment => "Failed to add comment".to_string(),
            Operation::GetComments => "Failed to get comments".to_string(),
            Operation::GetRecentTopics => "Failed to get recent topics".to_string(),
        }
    }

    pub fn success_status(self) -> (r: u16)
        ensures
            r == success_status(self),
    {
        match self {
            Operation::AddComment => 201,
            _ => 200,
        }
    }
}

/// The answer to a request.
#[derive(Debug, Clone, PartialEq, Eq)]
pub enum HandlerResponse<T> {
    Success(T),
    Fail { code: u32, message: String },
}

impl<T> HandlerResponse<T> {
    /// This is the failure answer of `op`.
    pub open spec fn is_failure_of(&self, op: Operation) -> bool {
        match self {
            HandlerResponse::Fail { code, message } => *code == failure_code(op) && message@ == failure_message(op),
            HandlerResponse::Success(_) => false,
        }
    }

    /// The failure answer of `op`.
    pub fn failure(op: Operation) -> (r: HandlerResponse<T>)
        ensures
            r.is_failure_of(op),
    {
        HandlerResponse::Fail { code: op.failure_code(), message: op.failure_message() }
    }

    /// The answer of `op` to the outcome of its store or tracker call: the data
    /// on success, the operation's failure whatever the error.
    pub fn from_outcome<E>(op: Operation, outcome: Result<T, E>) -> (r: HandlerResponse<T>)
        ensures
            outcome matches Ok(v) ==> r == HandlerResponse::<T>::Success(v),
            outcome is Err ==> r.is_failure_of(op),
    {
        match outcome {
            Ok(v) => HandlerResponse::Success(v),
            Err(_) => HandlerResponse::failure(op),
        }
    }

    /// The HTTP status that goes with this answer to `op`.
    pub fn status_code(&self, op: Operation) -> (r: u16)
        ensures
            self is Success ==> r == success_status(op),
            self is Fail ==> r == FAILURE_STATUS,
    {
        match self {
            HandlerResponse::Success(_) => op.success_status(),
            HandlerResponse::Fail { .. } => FAILURE_STATUS,
        }
    }

    pub fn is_success(&self) -> (r: bool)
        ensures
            r == (self is Success),
    {
        match self {
            HandlerResponse::Success(_) => true,
            HandlerResponse::Fail { .. } => false,
        }
    }
}

} // verus!
