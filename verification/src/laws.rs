//! What holds of the registry and the coordinator over several calls,
//! stated over the same spec functions as the contracts of the calls.
use vstd::prelude::*;
use crate::backend::{exchange_outcome, ExchangeView};
use crate::dispatch::{
    complete_reply,
    error_reply,
    is_status_query,
    outcome_reply,
    pending_reply,
    step,
    submitted_reply,
    well_formed_request,
    ActionView,
    GatewayView,
};
use crate::message::{ErrorKind, OutcomeView, RequestView, Status};
use crate::registry::{
    evictable,
    is_completed,
    is_running,
    overdue,
    spec_collect,
    spec_collect_result,
    spec_complete,
    spec_expire,
    spec_poll,
    spec_register,
    spec_sweep,
    timeout_message,
    CollectView,
    PollView,
    RecordView,
};
use crate::stream::answer_at;

verus! {

/// Right after `register`, `poll` answers `Running` for the same
/// identifier: whether the registration went through or met a running task
/// under that identifier.
pub proof fn law_register_then_poll(m: Map<Seq<char>, RecordView>, id: Seq<char>, now: u64)
    ensures
        spec_poll(spec_register(m, id, now), id) == PollView::Running,
{
}

/// A finished task is handed out exactly once: the first `collect` gives
/// its outcome, and from then on `collect` and `poll` answer `NotFound` and
/// a status query is answered with `UnknownRequest`, with nothing changed.
pub proof fn law_collect_exactly_once(
    g: GatewayView,
    r: RequestView,
    now: u64,
    payload: Option<Seq<char>>,
)
    requires
        is_completed(g.tasks, r.request_id),
        well_formed_request(r),
        is_status_query(r),
    ensures
        ({
            let id = r.request_id;
            let outcome = g.tasks[id].state->Completed_0;
            let left = spec_collect(g.tasks, id);
            let after = GatewayView { url: g.url, tasks: left };
            &&& spec_collect_result(g.tasks, id) == CollectView::Completed(outcome)
            &&& spec_collect_result(left, id) == CollectView::NotFound
            &&& spec_poll(left, id) == PollView::NotFound
            &&& spec_collect(left, id) == left
            &&& step(g, r, now, payload).reply == outcome_reply(id, outcome)
            &&& step(g, r, now, payload).state == after
            &&& step(after, r, now, payload).reply.status == Status::Error
            &&& step(after, r, now, payload).reply.error == Some(ErrorKind::UnknownRequest)
            &&& step(after, r, now, payload).state == after
        }),
{
}

/// A work command under an identifier that is running is refused with
/// `DuplicateId`: the running record stays as it is and nothing is started.
pub proof fn law_duplicate_rejected(
    g: GatewayView,
    r: RequestView,
    now: u64,
    payload: Option<Seq<char>>,
)
    requires
        is_running(g.tasks, r.request_id),
        well_formed_request(r),
        !is_status_query(r),
    ensures
        spec_register(g.tasks, r.request_id, now) == g.tasks,
        step(g, r, now, payload).reply.status == Status::Error,
        step(g, r, now, payload).reply.error == Some(ErrorKind::DuplicateId),
        step(g, r, now, payload).state == g,
        step(g, r, now, payload).action == ActionView::Nothing,
{
}

/// The same identifier submitted twice in a row: the second submission is
/// refused with `DuplicateId` and leaves the first one's record in place.
pub proof fn law_second_submission_rejected(
    g: GatewayView,
    first: RequestView,
    second: RequestView,
    now: u64,
    later: u64,
    payload: Seq<char>,
    other: Option<Seq<char>>,
)
    requires
        well_formed_request(first),
        !is_status_query(first),
        !is_running(g.tasks, first.request_id),
        well_formed_request(second),
        !is_status_query(second),
        second.request_id == first.request_id,
    ensures
        ({
            let submitted = step(g, first, now, Some(payload));
            let again = step(submitted.state, second, later, other);
            &&& submitted.reply == submitted_reply(first)
            &&& again.reply.error == Some(ErrorKind::DuplicateId)
            &&& again.state == submitted.state
            &&& again.action == ActionView::Nothing
        }),
{
}

/// A submission is answered without the backend: the reply is `SUBMITTED`,
/// the exchange is handed to the caller as an action, and the task is
/// running when the reply goes out.
pub proof fn law_submission_leaves_task_running(
    g: GatewayView,
    r: RequestView,
    now: u64,
    payload: Seq<char>,
)
    requires
        well_formed_request(r),
        !is_status_query(r),
        !is_running(g.tasks, r.request_id),
    ensures
        step(g, r, now, Some(payload)).reply == submitted_reply(r),
        step(g, r, now, Some(payload)).action == (ActionView::Execute {
            url: g.url,
            request_id: r.request_id,
            payload: payload,
        }),
        spec_poll(step(g, r, now, Some(payload)).state.tasks, r.request_id) == PollView::Running,
{
}

/// What is done under one identifier leaves every other identifier's record
/// as it was.
pub proof fn law_other_ids_untouched(
    m: Map<Seq<char>, RecordView>,
    id: Seq<char>,
    other: Seq<char>,
    now: u64,
    o: OutcomeView,
)
    requires
        other != id,
    ensures
        spec_poll(spec_register(m, id, now), other) == spec_poll(m, other),
        spec_poll(spec_complete(m, id, o), other) == spec_poll(m, other),
        spec_poll(spec_collect(m, id), other) == spec_poll(m, other),
{
}

/// A request leaves the records of all identifiers but its own as they
/// were.
pub proof fn law_step_touches_own_id_only(
    g: GatewayView,
    r: RequestView,
    now: u64,
    payload: Option<Seq<char>>,
    other: Seq<char>,
)
    requires
        other != r.request_id,
    ensures
        spec_poll(step(g, r, now, payload).state.tasks, other) == spec_poll(g.tasks, other),
        step(g, r, now, payload).state.url == g.url,
{
}

/// The table after the tasks `ids` were completed, one after the other,
/// each with the outcome at its place in `outcomes`.
pub open spec fn complete_all(
    m: Map<Seq<char>, RecordView>,
    ids: Seq<Seq<char>>,
    outcomes: Seq<OutcomeView>,
) -> Map<Seq<char>, RecordView>
    decreases ids.len(),
{
    if ids.len() == 0 || outcomes.len() != ids.len() {
        m
    } else {
        spec_complete(
            complete_all(m, ids.drop_last(), outcomes.drop_last()),
            ids.last(),
            outcomes.last(),
        )
    }
}

/// Any number of running tasks under distinct identifiers, completed in any
/// order: each identifier finds its own task's outcome and no other.
pub proof fn law_each_id_gets_its_own_outcome(
    m: Map<Seq<char>, RecordView>,
    ids: Seq<Seq<char>>,
    outcomes: Seq<OutcomeView>,
)
    requires
        ids.len() == outcomes.len(),
        forall|i: int, j: int| 0 <= i < j < ids.len() ==> ids[i] != ids[j],
        forall|i: int| 0 <= i < ids.len() ==> is_running(m, #[trigger] ids[i]),
    ensures
        forall|i: int|
            0 <= i < ids.len() ==> spec_poll(complete_all(m, ids, outcomes), #[trigger] ids[i])
                == PollView::Completed(outcomes[i]),
        forall|k: Seq<char>|
            !ids.contains(k) ==> spec_poll(#[trigger] complete_all(m, ids, outcomes), k)
                == spec_poll(m, k),
    decreases ids.len(),
{
    if ids.len() > 0 {
        let front = ids.drop_last();
        let front_outcomes = outcomes.drop_last();
        law_each_id_gets_its_own_outcome(m, front, front_outcomes);
        let before = complete_all(m, front, front_outcomes);
        let last = ids.last();
        assert(!front.contains(last)) by {
            if front.contains(last) {
                let j = choose|j: int| 0 <= j < front.len() && front[j] == last;
                assert(ids[j] != ids[ids.len() - 1]);
            }
        }
        assert(ids[ids.len() - 1] == last);
        assert(spec_poll(before, last) == spec_poll(m, last));
        assert forall|i: int| 0 <= i < ids.len() implies spec_poll(
            complete_all(m, ids, outcomes),
            #[trigger] ids[i],
        ) == PollView::Completed(outcomes[i]) by {
            if i < ids.len() - 1 {
                assert(front[i] == ids[i]);
                assert(front_outcomes[i] == outcomes[i]);
                assert(ids[i] != ids[ids.len() - 1]);
            }
        }
        assert forall|k: Seq<char>| !ids.contains(k) implies spec_poll(
            #[trigger] complete_all(m, ids, outcomes),
            k,
        ) == spec_poll(m, k) by {
            assert(k != last);
            if front.contains(k) {
                let j = choose|j: int| 0 <= j < front.len() && front[j] == k;
                assert(ids[j] == k);
            }
        }
    }
}

/// A task whose exchange failed is not lost: the failure is stored as the
/// task's outcome, and the next status query delivers it with status
/// `ERROR`, the kind `TransportError` and a diagnostic that names the step
/// and carries the transport's words. The record is gone after that.
pub proof fn law_transport_failure_is_delivered(
    g: GatewayView,
    r: RequestView,
    now: u64,
    payload: Option<Seq<char>>,
    x: ExchangeView,
)
    requires
        is_running(g.tasks, r.request_id),
        well_formed_request(r),
        is_status_query(r),
        x is ConnectFailed || x is SendFailed || x is ReceiveFailed,
    ensures
        ({
            let failed = GatewayView {
                url: g.url,
                tasks: spec_complete(g.tasks, r.request_id, exchange_outcome(x)),
            };
            let answer = step(failed, r, now, payload);
            &&& exchange_outcome(x) is Failure
            &&& exchange_outcome(x)->Failure_0 == ErrorKind::TransportError
            &&& answer.reply == error_reply(
                r.request_id,
                ErrorKind::TransportError,
                exchange_outcome(x)->Failure_1,
            )
            &&& answer.reply.status == Status::Error
            &&& !answer.state.tasks.contains_key(r.request_id)
        }),
{
}

/// Every reply carries the identifier of the request it answers, and names
/// an error kind exactly where its status is `ERROR`.
pub proof fn law_reply_is_correlated(
    g: GatewayView,
    r: RequestView,
    now: u64,
    payload: Option<Seq<char>>,
)
    ensures
        step(g, r, now, payload).reply.request_id == r.request_id,
        step(g, r, now, payload).reply.status == Status::Error <==> step(
            g,
            r,
            now,
            payload,
        ).reply.error is Some,
{
}

/// A request that is not well formed is refused with `BadRequest` and
/// changes nothing.
pub proof fn law_bad_request_changes_nothing(
    g: GatewayView,
    r: RequestView,
    now: u64,
    payload: Option<Seq<char>>,
)
    requires
        !well_formed_request(r),
    ensures
        step(g, r, now, payload).reply.error == Some(ErrorKind::BadRequest),
        step(g, r, now, payload).state == g,
        step(g, r, now, payload).action == ActionView::Nothing,
{
}

/// A status query for a running task answers `PENDING` and changes nothing.
pub proof fn law_pending_changes_nothing(
    g: GatewayView,
    r: RequestView,
    now: u64,
    payload: Option<Seq<char>>,
)
    requires
        is_running(g.tasks, r.request_id),
        well_formed_request(r),
        is_status_query(r),
    ensures
        step(g, r, now, payload).reply.status == Status::Pending,
        step(g, r, now, payload).state == g,
{
}

/// On a stream, the reply at each place answers the request at that place.
pub proof fn law_stream_replies_in_order(
    g: GatewayView,
    reqs: Seq<RequestView>,
    now: u64,
    i: int,
)
    requires
        0 <= i < reqs.len(),
    ensures
        answer_at(g, reqs, now, i).reply.request_id == reqs[i].request_id,
{
}

/// Eviction takes the stale results and nothing else: an evicted task is
/// unknown from then on and no late outcome brings it back, and every other
/// record is found as before.
pub proof fn law_sweep_takes_stale_results_only(
    m: Map<Seq<char>, RecordView>,
    id: Seq<char>,
    now: u64,
    max_age: u64,
    late: OutcomeView,
)
    ensures
        ({
            let swept = spec_sweep(m, now, max_age);
            if m.contains_key(id) && evictable(m[id], now, max_age) {
                &&& spec_poll(swept, id) == PollView::NotFound
                &&& spec_collect_result(swept, id) == CollectView::NotFound
                &&& spec_complete(swept, id, late) == swept
            } else {
                spec_poll(swept, id) == spec_poll(m, id)
            }
        }),
{
}

/// Expiry fails the overdue tasks and nothing else: an overdue task is
/// found finished with a `Timeout` failure, an outcome that comes after
/// that is ignored, and every other record is found as before.
pub proof fn law_expire_fails_overdue_tasks_only(
    m: Map<Seq<char>, RecordView>,
    id: Seq<char>,
    now: u64,
    deadline: u64,
    late: OutcomeView,
)
    ensures
        ({
            let expired = spec_expire(m, now, deadline);
            if m.contains_key(id) && overdue(m[id], now, deadline) {
                &&& spec_poll(expired, id) == PollView::Completed(
                    OutcomeView::Failure(ErrorKind::Timeout, timeout_message()),
                )
                &&& spec_complete(expired, id, late) == expired
            } else {
                spec_poll(expired, id) == spec_poll(m, id)
            }
        }),
{
}

/// The life of one task as its client sees it: the work command is
/// answered `SUBMITTED`; a status query that comes before the backend has
/// answered is answered `PENDING`; once the backend's reply is recorded, the
/// next status query is answered `COMPLETE` with that reply, each reply
/// under the task's identifier.
pub proof fn law_submitted_pending_complete(
    g: GatewayView,
    work: RequestView,
    query: RequestView,
    payload: Seq<char>,
    result: Seq<char>,
    submitted_at: u64,
    asked_at: u64,
    asked_again_at: u64,
    unused: Option<Seq<char>>,
)
    requires
        well_formed_request(work),
        !is_status_query(work),
        !is_running(g.tasks, work.request_id),
        well_formed_request(query),
        is_status_query(query),
        query.request_id == work.request_id,
    ensures
        ({
            let id = work.request_id;
            let first = step(g, work, submitted_at, Some(payload));
            let second = step(first.state, query, asked_at, unused);
            let answered = GatewayView {
                url: second.state.url,
                tasks: spec_complete(second.state.tasks, id, OutcomeView::Success(result)),
            };
            let third = step(answered, query, asked_again_at, unused);
            &&& first.reply == submitted_reply(work)
            &&& second.reply == pending_reply(id)
            &&& third.reply == complete_reply(id, result)
            &&& !third.state.tasks.contains_key(id)
        }),
{
}

} // verus!
