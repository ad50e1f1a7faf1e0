//! What can go wrong.
use vstd::prelude::*;

verus! {

/// An error of the library or of what it talks to.
#[derive(Debug, PartialEq, Eq)]
pub enum HatchetError {
    /// The address of the engine is not a URI.
    InvalidUri(String),
    /// The engine could not be reached.
    GrpcConnect(String),
    /// The engine answered with an error.
    GrpcErrorStatus(String),
    /// The token cannot be sent as a header.
    InvalidAuthHeader(String),
    /// The clock stands before the start of 1970.
    SystemTimeError,
    /// An action could not be handed to the dispatcher.
    DispatchError(String),
    /// The engine assigned an action of a kind that no worker performs.
    UnrecognizedAction(String),
    /// No task is registered under the name.
    TaskNotFound { task_name: String },
    /// The task has no parent of the name.
    ParentTaskNotFound { parent_step_name: String },
    /// A chunk could not be queued for the stream.
    StreamError(String),
    /// A part of the worker stopped working.
    InternalError(String),
}

/// The model of [`HatchetError`].
pub enum ErrorView {
    InvalidUri(Seq<char>),
    GrpcConnect(Seq<char>),
    GrpcErrorStatus(Seq<char>),
    InvalidAuthHeader(Seq<char>),
    SystemTimeError,
    DispatchError(Seq<char>),
    UnrecognizedAction(Seq<char>),
    TaskNotFound { task_name: Seq<char> },
    ParentTaskNotFound { parent_step_name: Seq<char> },
    StreamError(Seq<char>),
    InternalError(Seq<char>),
}

impl View for HatchetError {
    type V = ErrorView;

    open spec fn view(&self) -> ErrorView {
        match self {
            HatchetError::InvalidUri(m) => ErrorView::InvalidUri(m@),
            HatchetError::GrpcConnect(m) => ErrorView::GrpcConnect(m@),
            HatchetError::GrpcErrorStatus(m) => ErrorView::GrpcErrorStatus(m@),
            HatchetError::InvalidAuthHeader(m) => ErrorView::InvalidAuthHeader(m@),
            HatchetError::SystemTimeError => ErrorView::SystemTimeError,
            HatchetError::DispatchError(m) => ErrorView::DispatchError(m@),
            HatchetError::UnrecognizedAction(m) => ErrorView::UnrecognizedAction(m@),
            HatchetError::TaskNotFound { task_name } => ErrorView::TaskNotFound {
                task_name: task_name@,
            },
            HatchetError::ParentTaskNotFound { parent_step_name } => ErrorView::ParentTaskNotFound {
                parent_step_name: parent_step_name@,
            },
            HatchetError::StreamError(m) => ErrorView::StreamError(m@),
            HatchetError::InternalError(m) => ErrorView::InternalError(m@),
        }
    }
}

/// A field that a builder needs and was not given.
#[derive(Clone, Copy, Debug, PartialEq, Eq, Structural)]
pub enum UninitializedField {
    Name,
    Handler,
    Client,
}

impl UninitializedField {
    /// The name of the field.
    pub fn field_name(&self) -> (name: &'static str)
        ensures
            name@ == (match *self {
                UninitializedField::Name => "name"@,
                UninitializedField::Handler => "handler"@,
                UninitializedField::Client => "client"@,
            }),
    {
        match *self {
            UninitializedField::Name => "name",
            UninitializedField::Handler => "handler",
            UninitializedField::Client => "client",
        }
    }
}

/// The model of an error is of its kind and says what it says.
pub proof fn law_the_model_of_an_error_says_what_the_error_says(e: HatchetError)
    ensures
        e matches HatchetError::InvalidUri(m) ==> e@ == ErrorView::InvalidUri(m@),
        e matches HatchetError::GrpcConnect(m) ==> e@ == ErrorView::GrpcConnect(m@),
        e matches HatchetError::GrpcErrorStatus(m) ==> e@ == ErrorView::GrpcErrorStatus(m@),
        e matches HatchetError::InvalidAuthHeader(m) ==> e@ == ErrorView::InvalidAuthHeader(m@),
        e is SystemTimeError ==> e@ is SystemTimeError,
        e matches HatchetError::DispatchError(m) ==> e@ == ErrorView::DispatchError(m@),
        e matches HatchetError::UnrecognizedAction(m) ==> e@ == ErrorView::UnrecognizedAction(m@),
        e matches HatchetError::TaskNotFound { task_name } ==> e@ == (ErrorView::TaskNotFound {
            task_name: task_name@,
        }),
        e matches HatchetError::ParentTaskNotFound { parent_step_name } ==> e@ == (
        ErrorView::ParentTaskNotFound { parent_step_name: parent_step_name@ }),
        e matches HatchetError::StreamError(m) ==> e@ == ErrorView::StreamError(m@),
        e matches HatchetError::InternalError(m) ==> e@ == ErrorView::InternalError(m@),
{
}

} // verus!
