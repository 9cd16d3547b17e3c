//! The dispatch coordinator: for each inbound request, the reply that goes
//! back at once and the work, if any, that the caller is to start.
//!
//! The coordinator never talks to the backend. A work command is answered
//! with `SUBMITTED` and an `Action::Execute` that the caller runs on its own
//! time; the task's outcome comes back through `complete` or `finish` and
//! leaves through the next status query for its identifier.
use vstd::prelude::*;
use crate::backend::{command_text, encode_command, exchange_outcome, outcome_of_exchange, Exchange};
use crate::message::{
    CommandRequest,
    ErrorKind,
    Outcome,
    OutcomeView,
    Reply,
    ReplyView,
    RequestView,
    Status,
};
use crate::registry::{
    is_running,
    running_record,
    spec_collect,
    spec_collect_result,
    spec_complete,
    spec_expire,
    spec_sweep,
    CollectResult,
    CollectView,
    PollResult,
    RecordView,
    TaskRegistry,
};

verus! {

/// What the caller is to do after a request was answered.
#[derive(Clone, Debug, PartialEq, Eq)]
pub enum Action {
    /// Nothing.
    Nothing,
    /// Send `payload` to the backend at `url` without holding up the reply,
    /// and report how the exchange ended under `request_id`.
    Execute { url: String, request_id: String, payload: String },
}

pub enum ActionView {
    Nothing,
    Execute { url: Seq<char>, request_id: Seq<char>, payload: Seq<char> },
}

impl View for Action {
    type V = ActionView;

    open spec fn view(&self) -> ActionView {
        match self {
            Action::Nothing => ActionView::Nothing,
            Action::Execute { url, request_id, payload } => ActionView::Execute {
                url: url@,
                request_id: request_id@,
                payload: payload@,
            },
        }
    }
}

/// The coordinator as the contracts see it: the backend's address and the
/// table of tasks.
pub struct GatewayView {
    pub url: Seq<char>,
    pub tasks: Map<Seq<char>, RecordView>,
}

/// One step of the coordinator: the state it leaves, the reply, the action.
pub struct StepView {
    pub state: GatewayView,
    pub reply: ReplyView,
    pub action: ActionView,
}

/// The command that asks for a task's status instead of starting one.
pub open spec fn status_query() -> Seq<char> {
    "getrequeststatus"@
}

pub open spec fn is_status_query(r: RequestView) -> bool {
    r.cmd == status_query()
}

/// A request names its user, its command and its identifier.
pub open spec fn well_formed_request(r: RequestView) -> bool {
    r.user.len() > 0 && r.cmd.len() > 0 && r.request_id.len() > 0
}

pub open spec fn error_reply(id: Seq<char>, kind: ErrorKind, message: Seq<char>) -> ReplyView {
    ReplyView {
        request_id: id,
        status: Status::Error,
        error: Some(kind),
        message: message,
        user: Seq::empty(),
        cmd: Seq::empty(),
        args: Seq::empty(),
    }
}

pub open spec fn submitted_reply(r: RequestView) -> ReplyView {
    ReplyView {
        request_id: r.request_id,
        status: Status::Submitted,
        error: None,
        message: "submitted request to Arkouda"@,
        user: r.user,
        cmd: r.cmd,
        args: r.args,
    }
}

pub open spec fn pending_reply(id: Seq<char>) -> ReplyView {
    ReplyView {
        request_id: id,
        status: Status::Pending,
        error: None,
        message: Seq::empty(),
        user: Seq::empty(),
        cmd: Seq::empty(),
        args: Seq::empty(),
    }
}

pub open spec fn complete_reply(id: Seq<char>, result: Seq<char>) -> ReplyView {
    ReplyView {
        request_id: id,
        status: Status::Complete,
        error: None,
        message: result,
        user: Seq::empty(),
        cmd: Seq::empty(),
        args: Seq::empty(),
    }
}

/// The reply that delivers a collected outcome: the backend's result as it
/// came, or the stored failure with its kind and diagnostic.
pub open spec fn outcome_reply(id: Seq<char>, o: OutcomeView) -> ReplyView {
    match o {
        OutcomeView::Success(result) => complete_reply(id, result),
        OutcomeView::Failure(kind, message) => error_reply(id, kind, message),
    }
}

/// The answer to a status query for `id`.
pub open spec fn status_step(g: GatewayView, id: Seq<char>) -> StepView {
    match spec_collect_result(g.tasks, id) {
        CollectView::Completed(o) => StepView {
            state: GatewayView { url: g.url, tasks: spec_collect(g.tasks, id) },
            reply: outcome_reply(id, o),
            action: ActionView::Nothing,
        },
        CollectView::NotFound => StepView {
            state: g,
            reply: if is_running(g.tasks, id) {
                pending_reply(id)
            } else {
                error_reply(id, ErrorKind::UnknownRequest, "no task under this request id"@)
            },
            action: ActionView::Nothing,
        },
    }
}

/// The answer to a work command. `payload` is the encoded envelope, or
/// `None` where the encoder refused the request.
pub open spec fn submit_step(g: GatewayView, r: RequestView, now: u64, payload: Option<Seq<char>>)
    -> StepView {
    if is_running(g.tasks, r.request_id) {
        StepView {
            state: g,
            reply: error_reply(
                r.request_id,
                ErrorKind::DuplicateId,
                "a task is already running under this request id"@,
            ),
            action: ActionView::Nothing,
        }
    } else {
        match payload {
            None => StepView {
                state: g,
                reply: error_reply(
                    r.request_id,
                    ErrorKind::SerializationError,
                    "the command could not be encoded"@,
                ),
                action: ActionView::Nothing,
            },
            Some(p) => StepView {
                state: GatewayView {
                    url: g.url,
                    tasks: g.tasks.insert(r.request_id, running_record(now)),
                },
                reply: submitted_reply(r),
                action: ActionView::Execute { url: g.url, request_id: r.request_id, payload: p },
            },
        }
    }
}

/// The view of an optional payload.
pub open spec fn payload_view(payload: Option<String>) -> Option<Seq<char>> {
    match payload {
        Some(p) => Some(p@),
        None => None,
    }
}

/// The coordinator's rule. A request that is not well formed changes
/// nothing; a status query collects; anything else is a work command.
pub open spec fn step(g: GatewayView, r: RequestView, now: u64, payload: Option<Seq<char>>)
    -> StepView {
    if !well_formed_request(r) {
        StepView {
            state: g,
            reply: error_reply(
                r.request_id,
                ErrorKind::BadRequest,
                "user, cmd and request_id must not be empty"@,
            ),
            action: ActionView::Nothing,
        }
    } else if is_status_query(r) {
        status_step(g, r.request_id)
    } else {
        submit_step(g, r, now, payload)
    }
}

/// The payload decides the step: the request is a work command that is well
/// formed and whose identifier is free.
pub open spec fn awaits_payload(g: GatewayView, r: RequestView) -> bool {
    well_formed_request(r) && !is_status_query(r) && !is_running(g.tasks, r.request_id)
}

fn make_error_reply(id: &String, kind: ErrorKind, message: &str) -> (r: Reply)
    ensures
        r@ == error_reply(id@, kind, message@),
{
    Reply {
        request_id: id.clone(),
        status: Status::Error,
        error: Some(kind),
        message: String::from_str(message),
        user: String::new(),
        cmd: String::new(),
        args: String::new(),
    }
}

fn make_outcome_reply(id: &String, o: Outcome) -> (r: Reply)
    ensures
        r@ == outcome_reply(id@, o@),
{
    match o {
        Outcome::Success(result) => Reply {
            request_id: id.clone(),
            status: Status::Complete,
            error: None,
            message: result,
            user: String::new(),
            cmd: String::new(),
            args: String::new(),
        },
        Outcome::Failure(kind, message) => Reply {
            request_id: id.clone(),
            status: Status::Error,
            error: Some(kind),
            message: message,
            user: String::new(),
            cmd: String::new(),
            args: String::new(),
        },
    }
}

/// Whether `req` names its user, its command and its identifier.
pub fn request_is_well_formed(req: &CommandRequest) -> (r: bool)
    ensures
        r == well_formed_request(req@),
{
    !req.user.as_str().is_empty() && !req.cmd.as_str().is_empty()
        && !req.request_id.as_str().is_empty()
}

/// Whether `req` is a status query.
pub fn request_is_status_query(req: &CommandRequest) -> (r: bool)
    ensures
        r == is_status_query(req@),
{
    let verb = String::from_str("getrequeststatus");
    req.cmd == verb
}

/// The dispatch coordinator. It owns the task registry; nothing else
/// changes it.
#[derive(Debug)]
pub struct ArkServer {
    url: String,
    tasks: TaskRegistry,
}

impl View for ArkServer {
    type V = GatewayView;

    closed spec fn view(&self) -> GatewayView {
        GatewayView { url: self.url@, tasks: self.tasks@ }
    }
}

impl Default for ArkServer {
    /// A coordinator with no backend address and no task.
    fn default() -> (r: ArkServer)
        ensures
            r.wf(),
            r@ == (GatewayView { url: Seq::empty(), tasks: Map::empty() }),
    {
        ArkServer::new(String::new())
    }
}

impl ArkServer {
    /// The registry is well formed.
    pub closed spec fn wf(&self) -> bool {
        self.tasks.wf()
    }

    /// A coordinator for the backend at `url`, with no task.
    pub fn new(url: String) -> (r: ArkServer)
        ensures
            r.wf(),
            r@ == (GatewayView { url: url@, tasks: Map::empty() }),
    {
        ArkServer { url: url, tasks: TaskRegistry::new() }
    }

    /// The backend's address.
    pub fn url(&self) -> (r: &str)
        ensures
            r@ == self@.url,
    {
        self.url.as_str()
    }

    /// The task registry, to look into.
    pub fn tasks(&self) -> (r: &TaskRegistry)
        ensures
            r@ == self@.tasks,
            self.wf() ==> r.wf(),
    {
        &self.tasks
    }

    /// Answers `req` given the encoded envelope, or `None` where the encoder
    /// refused it. The reply, the action and the new state are those of
    /// `step`.
    pub fn handle_encoded(&mut self, req: &CommandRequest, now: u64, payload: Option<String>) -> (r:
        (Reply, Action))
        requires
            old(self).wf(),
        ensures
            final(self).wf(),
            final(self)@ == step(old(self)@, req@, now, payload_view(payload)).state,
            r.0@ == step(old(self)@, req@, now, payload_view(payload)).reply,
            r.1@ == step(old(self)@, req@, now, payload_view(payload)).action,
    {
        if !request_is_well_formed(req) {
            return (
                make_error_reply(
                    &req.request_id,
                    ErrorKind::BadRequest,
                    "user, cmd and request_id must not be empty",
                ),
                Action::Nothing,
            );
        }
        if request_is_status_query(req) {
            let reply = match self.tasks.collect(req.request_id.as_str()) {
                CollectResult::Completed(o) => make_outcome_reply(&req.request_id, o),
                CollectResult::NotFound => match self.tasks.poll(req.request_id.as_str()) {
                    PollResult::Running => Reply {
                        request_id: req.request_id.clone(),
                        status: Status::Pending,
                        error: None,
                        message: String::new(),
                        user: String::new(),
                        cmd: String::new(),
                        args: String::new(),
                    },
                    _ => make_error_reply(
                        &req.request_id,
                        ErrorKind::UnknownRequest,
                        "no task under this request id",
                    ),
                },
            };
            return (reply, Action::Nothing);
        }
        if let PollResult::Running = self.tasks.poll(req.request_id.as_str()) {
            return (
                make_error_reply(
                    &req.request_id,
                    ErrorKind::DuplicateId,
                    "a task is already running under this request id",
                ),
                Action::Nothing,
            );
        }
        match payload {
            None => (
                make_error_reply(
                    &req.request_id,
                    ErrorKind::SerializationError,
                    "the command could not be encoded",
                ),
                Action::Nothing,
            ),
            Some(p) => {
                let registered = self.tasks.register(req.request_id.as_str(), now);
                assert(registered is Ok);
                let reply = Reply {
                    request_id: req.request_id.clone(),
                    status: Status::Submitted,
                    error: None,
                    message: String::from_str("submitted request to Arkouda"),
                    user: req.user.clone(),
                    cmd: req.cmd.clone(),
                    args: req.args.clone(),
                };
                let action = Action::Execute {
                    url: self.url.clone(),
                    request_id: req.request_id.clone(),
                    payload: p,
                };
                (reply, action)
            },
        }
    }

    /// Answers `req`: the reply, the action and the new state are those of
    /// `step` on the request's envelope. The envelope is encoded only where
    /// `step` reads it.
    pub fn handle_request(&mut self, req: &CommandRequest, now: u64) -> (r: (Reply, Action))
        requires
            old(self).wf(),
        ensures
            final(self).wf(),
            final(self)@ == step(old(self)@, req@, now, Some(command_text(req@))).state,
            r.0@ == step(old(self)@, req@, now, Some(command_text(req@))).reply,
            r.1@ == step(old(self)@, req@, now, Some(command_text(req@))).action,
    {
        let work = request_is_well_formed(req) && !request_is_status_query(req);
        let payload = if work {
            match self.tasks.poll(req.request_id.as_str()) {
                PollResult::Running => None,
                _ => match encode_command(req) {
                    Ok(text) => Some(text),
                    Err(_) => None,
                },
            }
        } else {
            None
        };
        self.handle_encoded(req, now, payload)
    }

    /// Records the outcome of the running task `request_id`; answers whether
    /// there was such a task.
    pub fn complete(&mut self, request_id: &str, outcome: Outcome) -> (r: bool)
        requires
            old(self).wf(),
        ensures
            final(self).wf(),
            r == is_running(old(self)@.tasks, request_id@),
            final(self)@ == (GatewayView {
                url: old(self)@.url,
                tasks: spec_complete(old(self)@.tasks, request_id@, outcome@),
            }),
    {
        self.tasks.complete(request_id, outcome)
    }

    /// Records how the exchange for the running task `request_id` ended;
    /// answers whether there was such a task.
    pub fn finish(&mut self, request_id: &str, exchange: Exchange) -> (r: bool)
        requires
            old(self).wf(),
        ensures
            final(self).wf(),
            r == is_running(old(self)@.tasks, request_id@),
            final(self)@ == (GatewayView {
                url: old(self)@.url,
                tasks: spec_complete(old(self)@.tasks, request_id@, exchange_outcome(exchange@)),
            }),
    {
        self.tasks.complete(request_id, outcome_of_exchange(exchange))
    }

    /// Fails every task that has run longer than `deadline` with `Timeout`.
    pub fn expire(&mut self, now: u64, deadline: u64)
        requires
            old(self).wf(),
        ensures
            final(self).wf(),
            final(self)@ == (GatewayView {
                url: old(self)@.url,
                tasks: spec_expire(old(self)@.tasks, now, deadline),
            }),
    {
        self.tasks.expire(now, deadline)
    }

    /// Evicts every finished task that nobody collected within `max_age`.
    pub fn sweep(&mut self, now: u64, max_age: u64)
        requires
            old(self).wf(),
        ensures
            final(self).wf(),
            final(self)@ == (GatewayView {
                url: old(self)@.url,
                tasks: spec_sweep(old(self)@.tasks, now, max_age),
            }),
    {
        self.tasks.sweep(now, max_age)
    }
}

} // verus!
