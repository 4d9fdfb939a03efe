//! What holds of the dispatcher, proved from its definition.

use vstd::prelude::*;
use crate::controller::{coordinator_for_name, SystemView};
use crate::mediasource::MediaSourceView;
use crate::metadata::{escaped, spotify_media};
use crate::registry::{cached_track_no, has_name, has_uuid};
use crate::search::{first_index, is_first, lemma_first_found, lemma_first_index};
use crate::topology::{coordinator_uuid, group_of};
use crate::types::Response;
use crate::zoneaction::{
    first_step, live_track, next_step, play_now_script, queue_uri, seek_by, seek_target,
    track_or_zero, CallResultView, DispatchView, SpeakerCallView, StageView, StepView,
    ZoneActionView,
};

verus! {

/// The coordinator of a room is what the look-ups say: where `i` is the
/// first record with the room's name, `g` the first group that holds its
/// speaker, and `j` the first record of the speaker that coordinates `g`,
/// the room's coordinator is the record `j`.
pub proof fn lemma_coordinator_of_room<D, W>(
    system: SystemView<D, W>,
    name: Seq<char>,
    i: int,
    g: int,
    j: int,
)
    requires
        is_first(system.speakerdata, has_name(name), i),
        group_of(system.topology, system.speakerdata[i].speaker.uuid) == Some(g),
        is_first(system.speakerdata, has_uuid(system.topology[g].0), j),
    ensures
        coordinator_for_name(system, name) == Some(j),
{
    lemma_first_found(system.speakerdata, has_name::<D, W>(name), i);
    lemma_first_found(system.speakerdata, has_uuid::<D, W>(system.topology[g].0), j);
}

/// Every action but the existence check goes to the coordinator of the
/// group that contains the room it is addressed to: a call that the
/// dispatcher asks for first is a call on the coordinator's record, and
/// where the room has no coordinator the reply is `NotOk` and nothing is
/// called.
pub proof fn lemma_action_goes_to_coordinator<D, W>(
    action: ZoneActionView,
    name: Seq<char>,
    system: SystemView<D, W>,
)
    requires
        !(action is Exists),
        system.speakerdata.len() <= usize::MAX,
    ensures
        match first_step(action, name, system) {
            StepView::Call(_, dispatch) => {
                &&& coordinator_for_name(system, name) == Some(dispatch.speaker as int)
                &&& dispatch.uuid == system.speakerdata[dispatch.speaker as int].speaker.uuid
            },
            StepView::Reply(_) => true,
        },
        coordinator_for_name(system, name) is None ==> first_step(action, name, system)
            == StepView::Reply(Response::NotOk),
{
    lemma_first_index(system.speakerdata, has_name::<D, W>(name));
    match coordinator_for_name(system, name) {
        Some(c) => {
            let i = first_index(system.speakerdata, has_name::<D, W>(name))->0;
            let leader = coordinator_uuid(system.topology, system.speakerdata[i].speaker.uuid)->0;
            lemma_first_index(system.speakerdata, has_uuid::<D, W>(leader));
            assert(0 <= c < system.speakerdata.len());
        },
        None => {},
    }
}

/// Every call that follows is made on the same speaker: the dispatcher never
/// moves an action to another record.
pub proof fn lemma_calls_stay_on_speaker(dispatch: DispatchView, result: CallResultView)
    ensures
        next_step(dispatch, result) matches StepView::Call(_, next) ==> next.speaker
            == dispatch.speaker && next.uuid == dispatch.uuid,
{
}

/// A change of volume is one call, made on the coordinator of the room's
/// group and on no other speaker; its outcome ends the action.
pub proof fn lemma_volume_is_set_on_coordinator<D, W>(
    delta: i32,
    name: Seq<char>,
    system: SystemView<D, W>,
    result: CallResultView,
)
    requires
        system.speakerdata.len() <= usize::MAX,
    ensures
        match coordinator_for_name(system, name) {
            Some(c) => {
                let dispatch = DispatchView {
                    speaker: c as usize,
                    uuid: system.speakerdata[c].speaker.uuid,
                    stage: StageView::Script,
                    script: Seq::empty(),
                };
                &&& first_step(ZoneActionView::SetRelVolume(delta), name, system)
                    == StepView::Call(SpeakerCallView::SetVolumeRelative(delta), dispatch)
                &&& next_step(dispatch, result) is Reply
                &&& result is Done ==> next_step(dispatch, result) == StepView::Reply(Response::Okay)
            },
            None => first_step(ZoneActionView::SetRelVolume(delta), name, system)
                == StepView::Reply(Response::NotOk),
        },
{
    match coordinator_for_name(system, name) {
        Some(c) => {
            let script = seq![SpeakerCallView::SetVolumeRelative(delta)];
            assert(script.drop_first() =~= Seq::empty());
        },
        None => {},
    }
}

/// Seeking by a number of tracks selects the track whose number is the sum
/// of the current number and the step, and the first track where the sum
/// is less than one. With no current number to be had the current number
/// counts as zero.
pub proof fn lemma_seek_target(current: u32, delta: i32)
    ensures
        current <= i32::MAX ==> seek_target(current, delta) == Some(
            (if current + delta < 1 {
                1
            } else {
                current + delta
            }) as u32,
        ),
        seek_target(0, delta) == Some(
            (if delta < 1 {
                1
            } else {
                delta as int
            }) as u32,
        ),
{
}

/// A relative seek takes the current track number from the cache where the
/// cache has one, and asks the speaker where it has none; what the speaker
/// answers is used, and zero where it does not answer.
pub proof fn lemma_relative_seek<D, W>(
    delta: i32,
    name: Seq<char>,
    system: SystemView<D, W>,
    result: CallResultView,
)
    requires
        system.speakerdata.len() <= usize::MAX,
        coordinator_for_name(system, name) is Some,
    ensures
        ({
            let c = coordinator_for_name(system, name)->0;
            let uuid = system.speakerdata[c].speaker.uuid;
            let step = first_step(ZoneActionView::SeekRelTrack(delta), name, system);
            match cached_track_no(system.speakerdata[c].transport_data) {
                Some(entry) => step == seek_by(c as usize, uuid, track_or_zero(entry), delta),
                None => {
                    &&& step matches StepView::Call(SpeakerCallView::Track, dispatch)
                    &&& next_step(dispatch, result) == seek_by(
                        c as usize,
                        uuid,
                        live_track(result),
                        delta,
                    )
                    &&& !(result is Track) ==> live_track(result) == 0
                },
            }
        }),
{
}

/// Playing an item of a music service now makes four calls on the
/// coordinator, in this order: the queue is cleared, the item is put at the
/// head of the queue with its description escaped, the transport is pointed
/// at the coordinator's queue with no description, and playback starts.
pub proof fn lemma_play_now_calls(uuid: Seq<char>, media: (Seq<char>, Seq<char>))
    ensures
        play_now_script(uuid, media).len() == 4,
        play_now_script(uuid, media)[0] == SpeakerCallView::ClearQueue,
        play_now_script(uuid, media)[1] == (SpeakerCallView::QueueNext {
            uri: media.0,
            metadata: escaped(media.1),
            position: 1,
        }),
        play_now_script(uuid, media)[2] == (SpeakerCallView::SetTransportUri {
            uri: queue_uri(uuid),
            metadata: Seq::empty(),
        }),
        play_now_script(uuid, media)[3] == SpeakerCallView::Play,
{
}

/// Playing a Spotify item now begins with clearing the coordinator's queue;
/// the three other calls wait in their order.
pub proof fn lemma_play_spotify_now<D, W>(
    item: Seq<char>,
    name: Seq<char>,
    system: SystemView<D, W>,
)
    requires
        system.speakerdata.len() <= usize::MAX,
        coordinator_for_name(system, name) is Some,
        spotify_media(item) is Some,
    ensures
        ({
            let c = coordinator_for_name(system, name)->0;
            let uuid = system.speakerdata[c].speaker.uuid;
            first_step(ZoneActionView::PlayNow(MediaSourceView::Spotify(item)), name, system)
                == StepView::Call(
                SpeakerCallView::ClearQueue,
                DispatchView {
                    speaker: c as usize,
                    uuid,
                    stage: StageView::Script,
                    script: play_now_script(uuid, spotify_media(item)->0).drop_first(),
                },
            )
        }),
{
}

} // verus!
