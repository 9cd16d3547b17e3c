//! Requests, replies and the vocabulary of statuses and error kinds.
use vstd::prelude::*;

verus! {

/// The status a reply carries.
#[derive(Clone, Copy, Debug, PartialEq, Eq, Structural)]
pub enum Status {
    Submitted,
    Pending,
    Complete,
    Error,
}

/// The kinds of failure the gateway reports.
#[derive(Clone, Copy, Debug, PartialEq, Eq, Structural)]
pub enum ErrorKind {
    TransportError,
    UnknownRequest,
    DuplicateId,
    BadRequest,
    Timeout,
    SerializationError,
}

/// The text of a status as it goes over the wire.
pub open spec fn status_text(s: Status) -> Seq<char> {
    match s {
        Status::Submitted => "SUBMITTED"@,
        Status::Pending => "PENDING"@,
        Status::Complete => "COMPLETE"@,
        Status::Error => "ERROR"@,
    }
}

/// The name of an error kind as it goes over the wire.
pub open spec fn error_kind_text(k: ErrorKind) -> Seq<char> {
    match k {
        ErrorKind::TransportError => "TransportError"@,
        ErrorKind::UnknownRequest => "UnknownRequest"@,
        ErrorKind::DuplicateId => "DuplicateId"@,
        ErrorKind::BadRequest => "BadRequest"@,
        ErrorKind::Timeout => "Timeout"@,
        ErrorKind::SerializationError => "SerializationError"@,
    }
}

impl Status {
    pub fn as_str(&self) -> (r: &'static str)
        ensures
            r@ == status_text(*self),
    {
        match self {
            Status::Submitted => "SUBMITTED",
            Status::Pending => "PENDING",
            Status::Complete => "COMPLETE",
            Status::Error => "ERROR",
        }
    }
}

impl ErrorKind {
    pub fn as_str(&self) -> (r: &'static str)
        ensures
            r@ == error_kind_text(*self),
    {
        match self {
            ErrorKind::TransportError => "TransportError",
            ErrorKind::UnknownRequest => "UnknownRequest",
            ErrorKind::DuplicateId => "DuplicateId",
            ErrorKind::BadRequest => "BadRequest",
            ErrorKind::Timeout => "Timeout",
            ErrorKind::SerializationError => "SerializationError",
        }
    }
}

/// One inbound call.
#[derive(Clone, Debug, PartialEq, Eq)]
pub struct CommandRequest {
    pub user: String,
    pub cmd: String,
    pub format: String,
    pub token: String,
    pub size: i32,
    pub args: String,
    pub request_id: String,
}

/// What a `CommandRequest` is, as plain sequences.
pub struct RequestView {
    pub user: Seq<char>,
    pub cmd: Seq<char>,
    pub format: Seq<char>,
    pub token: Seq<char>,
    pub size: i32,
    pub args: Seq<char>,
    pub request_id: Seq<char>,
}

impl View for CommandRequest {
    type V = RequestView;

    open spec fn view(&self) -> RequestView {
        RequestView {
            user: self.user@,
            cmd: self.cmd@,
            format: self.format@,
            token: self.token@,
            size: self.size,
            args: self.args@,
            request_id: self.request_id@,
        }
    }
}

/// What a finished task left behind: the backend's reply, or the failure
/// that took its place.
#[derive(Clone, Debug, PartialEq, Eq)]
pub enum Outcome {
    Success(String),
    Failure(ErrorKind, String),
}

pub enum OutcomeView {
    Success(Seq<char>),
    Failure(ErrorKind, Seq<char>),
}

impl View for Outcome {
    type V = OutcomeView;

    open spec fn view(&self) -> OutcomeView {
        match self {
            Outcome::Success(s) => OutcomeView::Success(s@),
            Outcome::Failure(k, s) => OutcomeView::Failure(*k, s@),
        }
    }
}

impl Outcome {
    /// A copy with the same view.
    pub fn duplicate(&self) -> (r: Outcome)
        ensures
            r@ == self@,
    {
        match self {
            Outcome::Success(s) => Outcome::Success(s.clone()),
            Outcome::Failure(k, s) => Outcome::Failure(*k, s.clone()),
        }
    }
}

/// The reply to one inbound call. `user`, `cmd` and `args` echo the request
/// on a submission and are empty otherwise; `error` is present exactly when
/// `status` is `Error`.
#[derive(Clone, Debug, PartialEq, Eq)]
pub struct Reply {
    pub request_id: String,
    pub status: Status,
    pub error: Option<ErrorKind>,
    pub message: String,
    pub user: String,
    pub cmd: String,
    pub args: String,
}

pub struct ReplyView {
    pub request_id: Seq<char>,
    pub status: Status,
    pub error: Option<ErrorKind>,
    pub message: Seq<char>,
    pub user: Seq<char>,
    pub cmd: Seq<char>,
    pub args: Seq<char>,
}

impl View for Reply {
    type V = ReplyView;

    open spec fn view(&self) -> ReplyView {
        ReplyView {
            request_id: self.request_id@,
            status: self.status,
            error: self.error,
            message: self.message@,
            user: self.user@,
            cmd: self.cmd@,
            args: self.args@,
        }
    }
}

} // verus!
