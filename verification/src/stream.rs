//! The stream adapter: the coordinator's rule applied to the messages of one
//! long-lived connection, in arrival order, with one reply for each.
use vstd::prelude::*;
use crate::backend::{command_text, exchange_outcome, Exchange};
use crate::dispatch::{step, Action, ArkServer, GatewayView, StepView};
use crate::message::{CommandRequest, Outcome, Reply, RequestView};
use crate::registry::{is_running, spec_complete, spec_expire, spec_sweep};

verus! {

/// The requests as the contracts see them.
pub open spec fn request_views(reqs: Seq<CommandRequest>) -> Seq<RequestView> {
    Seq::new(reqs.len(), |i: int| reqs[i]@)
}

/// The coordinator after it answered `reqs` one after the other.
pub open spec fn state_after(g: GatewayView, reqs: Seq<RequestView>, now: u64) -> GatewayView
    decreases reqs.len(),
{
    if reqs.len() == 0 {
        g
    } else {
        step(
            state_after(g, reqs.drop_last(), now),
            reqs.last(),
            now,
            Some(command_text(reqs.last())),
        ).state
    }
}

/// The answer to message `i` of `reqs`: the coordinator's step on the state
/// that the messages before it left.
pub open spec fn answer_at(g: GatewayView, reqs: Seq<RequestView>, now: u64, i: int) -> StepView {
    step(state_after(g, reqs.take(i), now), reqs[i], now, Some(command_text(reqs[i])))
}

/// The stream adapter. It answers through a coordinator of its own.
#[derive(Debug)]
pub struct StreamingArkServer {
    server: ArkServer,
}

impl View for StreamingArkServer {
    type V = GatewayView;

    closed spec fn view(&self) -> GatewayView {
        self.server@
    }
}

impl Default for StreamingArkServer {
    /// An adapter with no backend address and no task.
    fn default() -> (r: StreamingArkServer)
        ensures
            r.wf(),
            r@ == (GatewayView { url: Seq::empty(), tasks: Map::empty() }),
    {
        StreamingArkServer::new(String::new())
    }
}

impl StreamingArkServer {
    /// The coordinator is well formed.
    pub closed spec fn wf(&self) -> bool {
        self.server.wf()
    }

    /// An adapter for the backend at `url`, with no task.
    pub fn new(url: String) -> (r: StreamingArkServer)
        ensures
            r.wf(),
            r@ == (GatewayView { url: url@, tasks: Map::empty() }),
    {
        StreamingArkServer { server: ArkServer::new(url) }
    }

    /// Answers one message of the stream, as the coordinator does.
    pub fn handle_message(&mut self, req: &CommandRequest, now: u64) -> (r: (Reply, Action))
        requires
            old(self).wf(),
        ensures
            final(self).wf(),
            final(self)@ == step(old(self)@, req@, now, Some(command_text(req@))).state,
            r.0@ == step(old(self)@, req@, now, Some(command_text(req@))).reply,
            r.1@ == step(old(self)@, req@, now, Some(command_text(req@))).action,
    {
        self.server.handle_request(req, now)
    }

    /// Answers the messages that arrived, in their order: one reply and one
    /// action for each, the answer to a message being the coordinator's
    /// step on the state that the messages before it left.
    pub fn handle_request_stream(&mut self, requests: &Vec<CommandRequest>, now: u64) -> (out: Vec<
        (Reply, Action),
    >)
        requires
            old(self).wf(),
        ensures
            final(self).wf(),
            out@.len() == requests@.len(),
            forall|i: int|
                0 <= i < requests@.len() ==> {
                    &&& (#[trigger] out@[i]).0@ == answer_at(
                        old(self)@,
                        request_views(requests@),
                        now,
                        i,
                    ).reply
                    &&& out@[i].1@ == answer_at(
                        old(self)@,
                        request_views(requests@),
                        now,
                        i,
                    ).action
                },
            final(self)@ == state_after(old(self)@, request_views(requests@), now),
    {
        let ghost g0 = self@;
        let ghost views = request_views(requests@);
        let mut out: Vec<(Reply, Action)> = Vec::new();
        let mut i: usize = 0;
        proof {
            assert(views.take(0) =~= Seq::<RequestView>::empty());
        }
        while i < requests.len()
            invariant
                self.wf(),
                views == request_views(requests@),
                i <= requests@.len(),
                out@.len() == i,
                self@ == state_after(g0, views.take(i as int), now),
                forall|j: int|
                    0 <= j < i ==> {
                        &&& (#[trigger] out@[j]).0@ == answer_at(g0, views, now, j).reply
                        &&& out@[j].1@ == answer_at(g0, views, now, j).action
                    },
            decreases requests@.len() - i,
        {
            proof {
                let next = views.take(i as int + 1);
                assert(next.drop_last() =~= views.take(i as int));
                assert(next.last() == views[i as int]);
            }
            let answer = self.server.handle_request(&requests[i], now);
            out.push(answer);
            i += 1;
        }
        proof {
            assert(views.take(i as int) =~= views);
        }
        out
    }

    /// Records the outcome of the running task `request_id`; answers whether
    /// there was such a task.
    pub fn complete(&mut self, request_id: &str, outcome: Outcome) -> (r: bool)
        requires
            old(self).wf(),
        ensures
            final(self).wf(),
            r == is_running(old(self)@.tasks, request_id@),
            final(self)@ == (GatewayView {
                url: old(self)@.url,
                tasks: spec_complete(old(self)@.tasks, request_id@, outcome@),
            }),
    {
        self.server.complete(request_id, outcome)
    }

    /// Records how the exchange for the running task `request_id` ended;
    /// answers whether there was such a task.
    pub fn finish(&mut self, request_id: &str, exchange: Exchange) -> (r: bool)
        requires
            old(self).wf(),
        ensures
            final(self).wf(),
            r == is_running(old(self)@.tasks, request_id@),
            final(self)@ == (GatewayView {
                url: old(self)@.url,
                tasks: spec_complete(old(self)@.tasks, request_id@, exchange_outcome(exchange@)),
            }),
    {
        self.server.finish(request_id, exchange)
    }

    /// Fails every task that has run longer than `deadline` with `Timeout`.
    pub fn expire(&mut self, now: u64, deadline: u64)
        requires
            old(self).wf(),
        ensures
            final(self).wf(),
            final(self)@ == (GatewayView {
                url: old(self)@.url,
                tasks: spec_expire(old(self)@.tasks, now, deadline),
            }),
    {
        self.server.expire(now, deadline)
    }

    /// Evicts every finished task that nobody collected within `max_age`.
    pub fn sweep(&mut self, now: u64, max_age: u64)
        requires
            old(self).wf(),
        ensures
            final(self).wf(),
            final(self)@ == (GatewayView {
                url: old(self)@.url,
                tasks: spec_sweep(old(self)@.tasks, now, max_age),
            }),
    {
        self.server.sweep(now, max_age)
    }
}

} // verus!
