//! The event dispatcher: the single consumer of the event channel. Queue
//! batches are decoded and routed in arrival order; a shutdown event ends the
//! loop at once, and no event enqueued after it is processed.

use vstd::prelude::*;
use crate::decode::decode;
use crate::decode::decode_model;
use crate::route::{route, route_model, DeliveryRequest, RequestModel, RoutingTable, TableModel};

verus! {

/// One item crossing the event channel from its producers (the queue
/// listener and the interrupt watcher) to the dispatcher.
#[derive(Debug)]
pub enum Event {
    /// The frames of one raw multi-frame message received from the queue.
    QueueBatch(Vec<Vec<u8>>),
    /// Terminate the dispatch loop.
    Shutdown,
}

/// Model of one event.
pub enum EventModel {
    QueueBatch(Seq<Seq<u8>>),
    Shutdown,
}

impl View for Event {
    type V = EventModel;

    open spec fn view(&self) -> EventModel {
        match self {
            Event::QueueBatch(frames) => EventModel::QueueBatch(frames.deep_view()),
            Event::Shutdown => EventModel::Shutdown,
        }
    }
}

impl DeepView for Event {
    type V = EventModel;

    open spec fn deep_view(&self) -> EventModel {
        self@
    }
}

/// The requests one queue batch leads to: those its decoded command resolves
/// to, or none when the message is rejected — a decode failure is logged and
/// dropped, and the loop goes on.
pub open spec fn batch_requests(frames: Seq<Seq<u8>>, t: TableModel) -> Seq<RequestModel> {
    match decode_model(frames) {
        Ok(c) => route_model(c, t),
        Err(_) => Seq::empty(),
    }
}

/// Decode one raw message and resolve it against the table.
pub fn handle_batch(frames: &Vec<Vec<u8>>, table: &RoutingTable) -> (r: Vec<DeliveryRequest>)
    ensures
        r.deep_view() == batch_requests(frames.deep_view(), table@),
{
    match decode(frames) {
        Ok(cmd) => route(&cmd, table),
        Err(_) => {
            let empty: Vec<DeliveryRequest> = Vec::new();
            proof {
                assert(empty.deep_view() =~= Seq::<RequestModel>::empty());
            }
            empty
        },
    }
}

/// The requests the dispatch loop performs, in order, when it drains
/// `events` front to back: each batch's requests in arrival order, up to but
/// not past the first shutdown event.
pub open spec fn spec_dispatch(events: Seq<EventModel>, t: TableModel) -> Seq<RequestModel>
    decreases events.len(),
{
    if events.len() == 0 {
        Seq::empty()
    } else {
        match events[0] {
            EventModel::Shutdown => Seq::empty(),
            EventModel::QueueBatch(frames) => batch_requests(frames, t) + spec_dispatch(
                events.drop_first(),
                t,
            ),
        }
    }
}

/// Drain a queue of events exactly as the dispatch loop does: resolve each
/// batch in arrival order and stop at the first shutdown event, draining
/// nothing after it.
pub fn dispatch_events(events: &Vec<Event>, table: &RoutingTable) -> (r: Vec<DeliveryRequest>)
    ensures
        r.deep_view() == spec_dispatch(events.deep_view(), table@),
{
    let ghost all = events.deep_view();
    let mut out: Vec<DeliveryRequest> = Vec::new();
    let mut i: usize = 0;
    proof {
        assert(out.deep_view() =~= Seq::<RequestModel>::empty());
        assert(all.skip(0) =~= all);
    }
    while i < events.len()
        invariant
            i <= events.len(),
            all == events.deep_view(),
            out.deep_view() + spec_dispatch(all.skip(i as int), table@) == spec_dispatch(
                all,
                table@,
            ),
        decreases events.len() - i,
    {
        proof {
            assert(all[i as int] == events@[i as int]@);
            assert(all.skip(i as int)[0] == all[i as int]);
            assert(all.skip(i as int).drop_first() =~= all.skip(i as int + 1));
        }
        match &events[i] {
            Event::Shutdown => {
                proof {
                    assert(out.deep_view() + Seq::<RequestModel>::empty() =~= out.deep_view());
                }
                return out;
            },
            Event::QueueBatch(frames) => {
                let mut reqs = handle_batch(frames, table);
                let ghost pre_v = out@;
                let ghost pre_dv = out.deep_view();
                let ghost reqs_v = reqs@;
                let ghost reqs_dv = reqs.deep_view();
                out.append(&mut reqs);
                proof {
                    assert(out@ == pre_v + reqs_v);
                    assert forall|k: int| 0 <= k < out@.len() implies out.deep_view()[k] == (pre_dv
                        + reqs_dv)[k] by {
                        if k < pre_v.len() {
                            assert(out@[k] == pre_v[k]);
                        } else {
                            assert(out@[k] == reqs_v[k - pre_v.len()]);
                        }
                    }
                    assert(out.deep_view() =~= pre_dv + reqs_dv);
                    assert((pre_dv + reqs_dv) + spec_dispatch(all.skip(i as int + 1), table@)
                        =~= pre_dv + (reqs_dv + spec_dispatch(all.skip(i as int + 1), table@)));
                }
            },
        }
        i += 1;
    }
    proof {
        assert(all.skip(events@.len() as int) =~= Seq::<EventModel>::empty());
        assert(out.deep_view() + Seq::<RequestModel>::empty() =~= out.deep_view());
    }
    out
}

/// A shutdown event stops the dispatcher: whatever events are enqueued after
/// it, the requests performed are exactly those performed up to the shutdown.
pub proof fn lemma_shutdown_stops_dispatch(
    pre: Seq<EventModel>,
    post: Seq<EventModel>,
    t: TableModel,
)
    ensures
        spec_dispatch(pre + seq![EventModel::Shutdown] + post, t) == spec_dispatch(
            pre + seq![EventModel::Shutdown],
            t,
        ),
    decreases pre.len(),
{
    let with_post = pre + seq![EventModel::Shutdown] + post;
    let without = pre + seq![EventModel::Shutdown];
    if pre.len() == 0 {
        assert(with_post[0] is Shutdown);
        assert(without[0] is Shutdown);
    } else {
        lemma_shutdown_stops_dispatch(pre.drop_first(), post, t);
        assert(with_post[0] == pre[0]);
        assert(without[0] == pre[0]);
        assert(with_post.drop_first() =~= pre.drop_first() + seq![EventModel::Shutdown] + post);
        assert(without.drop_first() =~= pre.drop_first() + seq![EventModel::Shutdown]);
        match pre[0] {
            EventModel::Shutdown => {
            },
            EventModel::QueueBatch(frames) => {
                assert(spec_dispatch(with_post, t) == batch_requests(frames, t) + spec_dispatch(
                    with_post.drop_first(),
                    t,
                ));
                assert(spec_dispatch(without, t) == batch_requests(frames, t) + spec_dispatch(
                    without.drop_first(),
                    t,
                ));
            },
        }
    }
}

} // verus!
