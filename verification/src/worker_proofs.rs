//! What holds of a subscription worker, proved from its definition.

use vstd::prelude::*;
use crate::subscriber::{
    loss_notice, worker_step, SubscriberView, WorkerActionView, WorkerInputView, WorkerState,
};
use crate::types::EventView;

verus! {

/// True where a notice of a lost subscription is published.
pub open spec fn is_notice(published: Option<EventView>) -> bool {
    published matches Some(event) && event is SubscribeError
}

/// A worker whose consumers are gone gives its subscription up and ends
/// with its next turn, whatever came of giving it up; it publishes nothing
/// on the way.
pub proof fn lemma_worker_ends_without_consumers(worker: SubscriberView, after: WorkerInputView)
    requires
        worker.state == WorkerState::Listening,
    ensures
        ({
            let (left, first) = worker_step(worker, WorkerInputView::ConsumersGone);
            let (ended, second) = worker_step(left, after);
            &&& first.action == WorkerActionView::Unsubscribe
            &&& first.publish is None
            &&& second.action == WorkerActionView::Stop
            &&& second.publish is None
            &&& ended.state == WorkerState::Stopped
        }),
{
}

/// The notice of a lost subscription is published exactly on the turn on
/// which the worker gives the subscription up for lost, which is the turn
/// on which a first or a fresh subscription fails. A worker that has given
/// its subscription up for lost stays so and publishes nothing more.
pub proof fn lemma_one_notice_per_loss(worker: SubscriberView, input: WorkerInputView)
    ensures
        ({
            let (next, step) = worker_step(worker, input);
            let loses = next.state == WorkerState::Lost && worker.state != WorkerState::Lost;
            &&& is_notice(step.publish) <==> loses
            &&& loses ==> step.publish == Some(loss_notice(worker)) && step.action
                == WorkerActionView::Stop
            &&& loses <==> (worker.state == WorkerState::Subscribing || worker.state
                == WorkerState::Resubscribing) && input == WorkerInputView::Subscribed(false)
            &&& worker.state == WorkerState::Lost ==> next.state == WorkerState::Lost
                && step.publish is None
            &&& next.service == worker.service
            &&& next.uuid == worker.uuid
        }),
{
}

/// A renewal that fails and a stream that fails do not lose the
/// subscription: each is answered with one fresh subscription, in silence.
pub proof fn lemma_one_silent_retry(worker: SubscriberView)
    ensures
        worker.state == WorkerState::Renewing ==> ({
            let (next, step) = worker_step(worker, WorkerInputView::Renewed(false));
            next.state == WorkerState::Resubscribing && step.publish is None && step.action
                is Subscribe
        }),
        worker.state == WorkerState::Listening ==> ({
            let (next, step) = worker_step(worker, WorkerInputView::StreamFailed);
            next.state == WorkerState::Resubscribing && step.publish is None && step.action
                is Subscribe
        }),
{
}

} // verus!
