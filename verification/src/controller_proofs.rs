//! What holds of the controller's events and of its loop, proved from their
//! definitions.

use vstd::prelude::*;
use crate::controller::{loop_step, recovery_delay, LoopAction, LoopInput, LoopStage};
use crate::registry::{applied, has_uuid, with_event, Arrivals, Records};
use crate::registry_proofs::lemma_applied_within_topology;
use crate::search::{any_item, lemma_first_index};
use crate::topology::{in_topology, lemma_in_topology_is_key};
use crate::types::TopologyView;

verus! {

/// A speaker that the new topology does not show is not in the registry
/// once the topology is applied: its record is gone, and with the record
/// the handle of its worker.
pub proof fn lemma_gone_speaker_is_dropped<D, W>(
    records: Records<D, W>,
    topology: TopologyView,
    arrivals: Arrivals<D, W>,
    uuid: Seq<char>,
)
    requires
        !in_topology(topology, uuid),
    ensures
        !any_item(applied(records, topology, arrivals), has_uuid(uuid)),
{
    let after = applied(records, topology, arrivals);
    lemma_applied_within_topology(records, topology, arrivals);
    if any_item(after, has_uuid(uuid)) {
        let i = choose|i: int| 0 <= i < after.len() && has_uuid::<D, W>(uuid)(#[trigger] after[i]);
        assert(in_topology(topology, after[i].speaker.uuid));
        lemma_in_topology_is_key(topology, after[i].speaker.uuid);
        lemma_in_topology_is_key(topology, uuid);
    }
}

/// An AV-transport event for a speaker that the registry does not know
/// changes nothing.
pub proof fn lemma_event_for_unknown_speaker<D, W>(
    records: Records<D, W>,
    uuid: Seq<char>,
    data: Seq<(Seq<char>, Seq<char>)>,
)
    requires
        !any_item(records, has_uuid(uuid)),
    ensures
        with_event(records, uuid, data) == records,
{
    lemma_first_index(records, has_uuid::<D, W>(uuid));
}

/// An AV-transport event touches one record only, and of that record the
/// cached state only.
pub proof fn lemma_event_touches_one_cache<D, W>(
    records: Records<D, W>,
    uuid: Seq<char>,
    data: Seq<(Seq<char>, Seq<char>)>,
    i: int,
)
    requires
        0 <= i < records.len(),
    ensures
        with_event(records, uuid, data).len() == records.len(),
        with_event(records, uuid, data)[i].speaker == records[i].speaker,
        with_event(records, uuid, data)[i].device == records[i].device,
        with_event(records, uuid, data)[i].transport_subscription
            == records[i].transport_subscription,
        with_event(records, uuid, data)[i].transport_data == records[i].transport_data
            || with_event(records, uuid, data)[i].transport_data == data,
{
    lemma_first_index(records, has_uuid::<D, W>(uuid));
}

/// A recovery attempt that fails is followed by the commands that wait,
/// then by the events that wait, then by a sleep that lets the next attempt
/// start one second after this one began, or at once where more than a
/// second has passed; then the loop is at its head again and, with the
/// topology subscription still gone, recovers once more.
pub proof fn lemma_failed_recovery_is_paced(elapsed_ms: u64)
    ensures
        loop_step(LoopStage::Top, LoopInput::Begin, false) == (
            LoopStage::Recovering,
            LoopAction::Recover,
        ),
        loop_step(LoopStage::Recovering, LoopInput::Recovered(false), false) == (
            LoopStage::DrainingCommands,
            LoopAction::DrainCommands,
        ),
        loop_step(
            LoopStage::DrainingCommands,
            LoopInput::CommandsDrained { closed: false },
            false,
        ) == (LoopStage::DrainingEvents, LoopAction::DrainEvents),
        loop_step(LoopStage::DrainingEvents, LoopInput::EventsDrained { elapsed_ms }, false) == (
            LoopStage::Pacing,
            LoopAction::Sleep(recovery_delay(elapsed_ms as int) as u64),
        ),
        elapsed_ms + recovery_delay(elapsed_ms as int) >= 1000,
        elapsed_ms >= 1000 ==> recovery_delay(elapsed_ms as int) == 0,
        loop_step(LoopStage::Pacing, LoopInput::Slept, false) == (
            LoopStage::Recovering,
            LoopAction::Recover,
        ),
{
}

/// The loop ends when the command channel is closed, and only then; once
/// ended it stays ended.
pub proof fn lemma_loop_ends_with_commands(stage: LoopStage, input: LoopInput, subscribed: bool)
    ensures
        loop_step(stage, input, subscribed).1 == LoopAction::Exit <==> loop_step(
            stage,
            input,
            subscribed,
        ).0 == LoopStage::Finished,
        loop_step(stage, input, subscribed).0 == LoopStage::Finished <==> {
            ||| stage == LoopStage::Finished
            ||| stage == LoopStage::Waiting && input == LoopInput::CommandsClosed
            ||| stage == LoopStage::DrainingCommands && input == (LoopInput::CommandsDrained {
                closed: true,
            })
        },
{
}

/// With the topology subscription gone the loop recovers before it waits
/// for anything; with the subscription there it waits for a command or an
/// event.
pub proof fn lemma_loop_recovers_first(subscribed: bool)
    ensures
        loop_step(LoopStage::Top, LoopInput::Begin, subscribed).1 == if subscribed {
            LoopAction::Await
        } else {
            LoopAction::Recover
        },
        loop_step(LoopStage::Waiting, LoopInput::Handled, subscribed).1 == if subscribed {
            LoopAction::Await
        } else {
            LoopAction::Recover
        },
{
}

} // verus!
