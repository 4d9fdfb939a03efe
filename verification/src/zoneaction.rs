//! The zone action dispatcher: what a command addressed to a room makes the
//! coordinator of that room's group do, one call after the other.

use vstd::prelude::*;
use vstd::string::StringExecFns;
use crate::content::{Content, ContentView};
use crate::controller::{coordinator_for_name, System, SystemView};
use crate::mediasource::{container_of, media_of, MediaSource, MediaSourceView};
use crate::metadata::{escape_str_pcdata, escaped};
use crate::registry::{cached_track_no, has_exact_name, has_speaker_named};
use crate::search::any_item;
use crate::types::Response;

verus! {

/// What can be asked of a zone.
#[derive(Debug)]
pub enum ZoneAction {
    Exists,
    PlayNow(MediaSource),
    QueueAsNext(MediaSource),
    Play,
    Pause,
    PlayPause,
    NextTrack,
    PreviousTrack,
    SeekTime(u32),
    SeekTrack(u32),
    SeekRelTrack(i32),
    SetRepeat(sonor::RepeatMode),
    SetShuffle(bool),
    SetCrossfade(bool),
    SetPlayMode(sonor::RepeatMode, bool),
    ClearQueue,
    GetQueue,
    TakeSnapshot,
    ApplySnapshot(sonor::Snapshot),
    SetRelVolume(i32),
}

/// The mathematical value of a [`ZoneAction`].
pub enum ZoneActionView {
    Exists,
    PlayNow(MediaSourceView),
    QueueAsNext(MediaSourceView),
    Play,
    Pause,
    PlayPause,
    NextTrack,
    PreviousTrack,
    SeekTime(u32),
    SeekTrack(u32),
    SeekRelTrack(i32),
    SetRepeat(sonor::RepeatMode),
    SetShuffle(bool),
    SetCrossfade(bool),
    SetPlayMode(sonor::RepeatMode, bool),
    ClearQueue,
    GetQueue,
    TakeSnapshot,
    ApplySnapshot(sonor::Snapshot),
    SetRelVolume(i32),
}

impl View for ZoneAction {
    type V = ZoneActionView;

    open spec fn view(&self) -> ZoneActionView {
        match self {
            ZoneAction::Exists => ZoneActionView::Exists,
            ZoneAction::PlayNow(m) => ZoneActionView::PlayNow(m@),
            ZoneAction::QueueAsNext(m) => ZoneActionView::QueueAsNext(m@),
            ZoneAction::Play => ZoneActionView::Play,
            ZoneAction::Pause => ZoneActionView::Pause,
            ZoneAction::PlayPause => ZoneActionView::PlayPause,
            ZoneAction::NextTrack => ZoneActionView::NextTrack,
            ZoneAction::PreviousTrack => ZoneActionView::PreviousTrack,
            ZoneAction::SeekTime(s) => ZoneActionView::SeekTime(*s),
            ZoneAction::SeekTrack(n) => ZoneActionView::SeekTrack(*n),
            ZoneAction::SeekRelTrack(d) => ZoneActionView::SeekRelTrack(*d),
            ZoneAction::SetRepeat(m) => ZoneActionView::SetRepeat(*m),
            ZoneAction::SetShuffle(b) => ZoneActionView::SetShuffle(*b),
            ZoneAction::SetCrossfade(b) => ZoneActionView::SetCrossfade(*b),
            ZoneAction::SetPlayMode(m, b) => ZoneActionView::SetPlayMode(*m, *b),
            ZoneAction::ClearQueue => ZoneActionView::ClearQueue,
            ZoneAction::GetQueue => ZoneActionView::GetQueue,
            ZoneAction::TakeSnapshot => ZoneActionView::TakeSnapshot,
            ZoneAction::ApplySnapshot(s) => ZoneActionView::ApplySnapshot(*s),
            ZoneAction::SetRelVolume(d) => ZoneActionView::SetRelVolume(*d),
        }
    }
}

/// One call on a speaker.
#[derive(Debug)]
pub enum SpeakerCall {
    Play,
    Pause,
    PlayOrPause,
    Next,
    Previous,
    /// Seek to this many seconds into the track.
    SkipTo(u32),
    /// Select the track of this number; the first track has number 1.
    SeekTrack(u32),
    SetRepeatMode(sonor::RepeatMode),
    SetShuffle(bool),
    SetCrossfade(bool),
    SetPlaybackMode(sonor::RepeatMode, bool),
    ClearQueue,
    /// Read the queue.
    Queue,
    /// Take a snapshot of the transport state.
    Snapshot,
    /// Bring back the transport state of a snapshot.
    Apply(sonor::Snapshot),
    SetVolumeRelative(i32),
    /// Put an item into the queue at a position.
    QueueNext { uri: String, metadata: String, position: u32 },
    SetTransportUri { uri: String, metadata: String },
    /// Ask for the number of the current track.
    Track,
    /// List a container of the content directory.
    Browse(String),
}

/// The mathematical value of a [`SpeakerCall`].
pub enum SpeakerCallView {
    Play,
    Pause,
    PlayOrPause,
    Next,
    Previous,
    SkipTo(u32),
    SeekTrack(u32),
    SetRepeatMode(sonor::RepeatMode),
    SetShuffle(bool),
    SetCrossfade(bool),
    SetPlaybackMode(sonor::RepeatMode, bool),
    ClearQueue,
    Queue,
    Snapshot,
    Apply(sonor::Snapshot),
    SetVolumeRelative(i32),
    QueueNext { uri: Seq<char>, metadata: Seq<char>, position: u32 },
    SetTransportUri { uri: Seq<char>, metadata: Seq<char> },
    Track,
    Browse(Seq<char>),
}

impl View for SpeakerCall {
    type V = SpeakerCallView;

    open spec fn view(&self) -> SpeakerCallView {
        match self {
            SpeakerCall::Play => SpeakerCallView::Play,
            SpeakerCall::Pause => SpeakerCallView::Pause,
            SpeakerCall::PlayOrPause => SpeakerCallView::PlayOrPause,
            SpeakerCall::Next => SpeakerCallView::Next,
            SpeakerCall::Previous => SpeakerCallView::Previous,
            SpeakerCall::SkipTo(s) => SpeakerCallView::SkipTo(*s),
            SpeakerCall::SeekTrack(n) => SpeakerCallView::SeekTrack(*n),
            SpeakerCall::SetRepeatMode(m) => SpeakerCallView::SetRepeatMode(*m),
            SpeakerCall::SetShuffle(b) => SpeakerCallView::SetShuffle(*b),
            SpeakerCall::SetCrossfade(b) => SpeakerCallView::SetCrossfade(*b),
            SpeakerCall::SetPlaybackMode(m, b) => SpeakerCallView::SetPlaybackMode(*m, *b),
            SpeakerCall::ClearQueue => SpeakerCallView::ClearQueue,
            SpeakerCall::Queue => SpeakerCallView::Queue,
            SpeakerCall::Snapshot => SpeakerCallView::Snapshot,
            SpeakerCall::Apply(s) => SpeakerCallView::Apply(*s),
            SpeakerCall::SetVolumeRelative(d) => SpeakerCallView::SetVolumeRelative(*d),
            SpeakerCall::QueueNext { uri, metadata, position } => SpeakerCallView::QueueNext {
                uri: uri@,
                metadata: metadata@,
                position: *position,
            },
            SpeakerCall::SetTransportUri { uri, metadata } => SpeakerCallView::SetTransportUri {
                uri: uri@,
                metadata: metadata@,
            },
            SpeakerCall::Track => SpeakerCallView::Track,
            SpeakerCall::Browse(c) => SpeakerCallView::Browse(c@),
        }
    }
}

impl DeepView for SpeakerCall {
    type V = SpeakerCallView;

    open spec fn deep_view(&self) -> SpeakerCallView {
        self@
    }
}

/// How a call on a speaker ended.
#[derive(Debug)]
pub enum CallResult {
    /// The call went well and yields nothing.
    Done,
    /// The call failed.
    Failed,
    /// The number of the current track; none where nothing is playing.
    Track(Option<u32>),
    /// What the container lists.
    Contents(Vec<Content>),
    /// The queue.
    Queue(Vec<sonor::Track>),
    /// The snapshot taken.
    Snapshot(sonor::Snapshot),
}

/// The mathematical value of a [`CallResult`].
pub enum CallResultView {
    Done,
    Failed,
    Track(Option<u32>),
    Contents(Seq<ContentView>),
    Queue(Vec<sonor::Track>),
    Snapshot(sonor::Snapshot),
}

impl View for CallResult {
    type V = CallResultView;

    open spec fn view(&self) -> CallResultView {
        match self {
            CallResult::Done => CallResultView::Done,
            CallResult::Failed => CallResultView::Failed,
            CallResult::Track(n) => CallResultView::Track(*n),
            CallResult::Contents(list) => CallResultView::Contents(list.deep_view()),
            CallResult::Queue(q) => CallResultView::Queue(*q),
            CallResult::Snapshot(s) => CallResultView::Snapshot(*s),
        }
    }
}

/// What a zone action in progress waits for.
#[derive(Debug)]
pub enum Stage {
    /// The number of the current track, to seek this many tracks from it.
    SeekTrack(i32),
    /// The number of the current track, to queue the media behind it.
    QueueTrack(MediaSource),
    /// The listing of the media's container, to queue the media behind the
    /// track of this number.
    QueueBrowse(MediaSource, u32),
    /// The listing of the media's container, to play the media.
    PlayBrowse(MediaSource),
    /// The outcome of a call of the script.
    Script,
}

/// The mathematical value of a [`Stage`].
pub enum StageView {
    SeekTrack(i32),
    QueueTrack(MediaSourceView),
    QueueBrowse(MediaSourceView, u32),
    PlayBrowse(MediaSourceView),
    Script,
}

impl View for Stage {
    type V = StageView;

    open spec fn view(&self) -> StageView {
        match self {
            Stage::SeekTrack(d) => StageView::SeekTrack(*d),
            Stage::QueueTrack(m) => StageView::QueueTrack(m@),
            Stage::QueueBrowse(m, n) => StageView::QueueBrowse(m@, *n),
            Stage::PlayBrowse(m) => StageView::PlayBrowse(m@),
            Stage::Script => StageView::Script,
        }
    }
}

/// A zone action in progress on the coordinator of a group.
#[derive(Debug)]
pub struct Dispatch {
    /// The record of the coordinator.
    pub speaker: usize,
    /// The identifier of the coordinator.
    pub uuid: String,
    /// What the action waits for.
    pub stage: Stage,
    /// The calls that are still to be made once the awaited call went well.
    pub script: Vec<SpeakerCall>,
}

/// The mathematical value of a [`Dispatch`].
pub struct DispatchView {
    pub speaker: usize,
    pub uuid: Seq<char>,
    pub stage: StageView,
    pub script: Seq<SpeakerCallView>,
}

impl View for Dispatch {
    type V = DispatchView;

    open spec fn view(&self) -> DispatchView {
        DispatchView {
            speaker: self.speaker,
            uuid: self.uuid@,
            stage: self.stage@,
            script: self.script.deep_view(),
        }
    }
}

/// What the dispatcher does next.
#[derive(Debug)]
pub enum Step {
    /// The action has ended: this is the reply.
    Reply(Response),
    /// This call is to be made on the speaker of the record that the action
    /// in progress names; its outcome is to be handed to `resume`.
    Call(SpeakerCall, Dispatch),
}

/// The mathematical value of a [`Step`].
pub enum StepView {
    Reply(Response),
    Call(SpeakerCallView, DispatchView),
}

impl View for Step {
    type V = StepView;

    open spec fn view(&self) -> StepView {
        match self {
            Step::Reply(r) => StepView::Reply(*r),
            Step::Call(call, dispatch) => StepView::Call(call@, dispatch@),
        }
    }
}

/// The track to select when seeking `delta` tracks from the current one:
/// the sum, and the first track where the sum is less. None where the
/// current number is beyond what a signed number holds.
pub open spec fn seek_target(current: u32, delta: i32) -> Option<u32> {
    if current > i32::MAX {
        None
    } else if current + delta < 1 {
        Some(1u32)
    } else {
        Some((current + delta) as u32)
    }
}

/// The position behind the current track. None where there is no such number.
pub open spec fn queue_position(current: u32) -> Option<u32> {
    if current == u32::MAX {
        None
    } else {
        Some((current + 1) as u32)
    }
}

/// The address of the queue of a speaker.
pub open spec fn queue_uri(uuid: Seq<char>) -> Seq<char> {
    "x-rincon-queue:"@ + uuid + "#0"@
}

/// What playing a media item now takes: the queue is cleared, the item is
/// put at its head with its description escaped, the transport is pointed
/// at the queue, and playback starts.
pub open spec fn play_now_script(uuid: Seq<char>, media: (Seq<char>, Seq<char>)) -> Seq<
    SpeakerCallView,
> {
    seq![
        SpeakerCallView::ClearQueue,
        SpeakerCallView::QueueNext { uri: media.0, metadata: escaped(media.1), position: 1 },
        SpeakerCallView::SetTransportUri { uri: queue_uri(uuid), metadata: Seq::empty() },
        SpeakerCallView::Play,
    ]
}

/// The number of the current track as the cache has it, an entry that does
/// not read as a number counting as none: zero.
pub open spec fn track_or_zero(entry: Option<u32>) -> u32 {
    match entry {
        Some(n) => n,
        None => 0,
    }
}

/// The number of the current track as the speaker reports it: zero where
/// nothing plays and where the speaker did not answer.
pub open spec fn live_track(result: CallResultView) -> u32 {
    match result {
        CallResultView::Track(Some(n)) => n,
        _ => 0,
    }
}

/// The reply that the outcome of the last call of a script makes.
pub open spec fn reply_for(result: CallResultView) -> Response {
    match result {
        CallResultView::Done => Response::Okay,
        CallResultView::Queue(q) => Response::Queue(q),
        CallResultView::Snapshot(s) => Response::Snapshot(s),
        _ => Response::NotOk,
    }
}

/// Going through a script: its first call is made, the rest waits; an empty
/// script has gone well.
pub open spec fn run_script(speaker: usize, uuid: Seq<char>, script: Seq<SpeakerCallView>) -> StepView {
    if script.len() == 0 {
        StepView::Reply(Response::Okay)
    } else {
        StepView::Call(
            script[0],
            DispatchView { speaker, uuid, stage: StageView::Script, script: script.drop_first() },
        )
    }
}

/// Seeking `delta` tracks from the track of number `current`.
pub open spec fn seek_by(speaker: usize, uuid: Seq<char>, current: u32, delta: i32) -> StepView {
    match seek_target(current, delta) {
        Some(target) => run_script(speaker, uuid, seq![SpeakerCallView::SeekTrack(target)]),
        None => StepView::Reply(Response::NotOk),
    }
}

/// Queueing what the media resolved to behind the track of number `current`.
pub open spec fn queue_media(
    speaker: usize,
    uuid: Seq<char>,
    media: Option<(Seq<char>, Seq<char>)>,
    current: u32,
) -> StepView {
    match (media, queue_position(current)) {
        (Some(found), Some(position)) => run_script(
            speaker,
            uuid,
            seq![
                SpeakerCallView::QueueNext {
                    uri: found.0,
                    metadata: escaped(found.1),
                    position,
                },
            ],
        ),
        _ => StepView::Reply(Response::NotOk),
    }
}

/// Queueing a media item behind the track of number `current`: its
/// container is listed first, where it has one.
pub open spec fn queue_after(
    speaker: usize,
    uuid: Seq<char>,
    media: MediaSourceView,
    current: u32,
) -> StepView {
    match container_of(media) {
        Some(container) => StepView::Call(
            SpeakerCallView::Browse(container),
            DispatchView {
                speaker,
                uuid,
                stage: StageView::QueueBrowse(media, current),
                script: Seq::empty(),
            },
        ),
        None => queue_media(speaker, uuid, media_of(media, Seq::empty()), current),
    }
}

/// Playing what the media resolved to.
pub open spec fn play_media(
    speaker: usize,
    uuid: Seq<char>,
    media: Option<(Seq<char>, Seq<char>)>,
) -> StepView {
    match media {
        Some(found) => run_script(speaker, uuid, play_now_script(uuid, found)),
        None => StepView::Reply(Response::NotOk),
    }
}

/// A call that is awaited before the action can go on.
pub open spec fn ask(
    speaker: usize,
    uuid: Seq<char>,
    call: SpeakerCallView,
    stage: StageView,
) -> StepView {
    StepView::Call(call, DispatchView { speaker, uuid, stage, script: Seq::empty() })
}

/// What an action other than the existence check does first on the
/// coordinator of the record `speaker`, whose identifier is `uuid` and whose
/// cache says `cached` of the current track.
pub open spec fn act_on(
    action: ZoneActionView,
    speaker: usize,
    uuid: Seq<char>,
    cached: Option<Option<u32>>,
) -> StepView {
    match action {
        ZoneActionView::Exists => StepView::Reply(Response::NotOk),
        ZoneActionView::PlayNow(media) => match container_of(media) {
            Some(container) => ask(
                speaker,
                uuid,
                SpeakerCallView::Browse(container),
                StageView::PlayBrowse(media),
            ),
            None => play_media(speaker, uuid, media_of(media, Seq::empty())),
        },
        ZoneActionView::QueueAsNext(media) => match cached {
            Some(entry) => queue_after(speaker, uuid, media, track_or_zero(entry)),
            None => ask(speaker, uuid, SpeakerCallView::Track, StageView::QueueTrack(media)),
        },
        ZoneActionView::Play => run_script(speaker, uuid, seq![SpeakerCallView::Play]),
        ZoneActionView::Pause => run_script(speaker, uuid, seq![SpeakerCallView::Pause]),
        ZoneActionView::PlayPause => run_script(speaker, uuid, seq![SpeakerCallView::PlayOrPause]),
        ZoneActionView::NextTrack => run_script(speaker, uuid, seq![SpeakerCallView::Next]),
        ZoneActionView::PreviousTrack => run_script(speaker, uuid, seq![SpeakerCallView::Previous]),
        ZoneActionView::SeekTime(s) => run_script(speaker, uuid, seq![SpeakerCallView::SkipTo(s)]),
        ZoneActionView::SeekTrack(n) => run_script(
            speaker,
            uuid,
            seq![SpeakerCallView::SeekTrack(n)],
        ),
        ZoneActionView::SeekRelTrack(delta) => match cached {
            Some(entry) => seek_by(speaker, uuid, track_or_zero(entry), delta),
            None => ask(speaker, uuid, SpeakerCallView::Track, StageView::SeekTrack(delta)),
        },
        ZoneActionView::SetRepeat(mode) => run_script(
            speaker,
            uuid,
            seq![SpeakerCallView::SetRepeatMode(mode)],
        ),
        ZoneActionView::SetShuffle(on) => run_script(
            speaker,
            uuid,
            seq![SpeakerCallView::SetShuffle(on)],
        ),
        ZoneActionView::SetCrossfade(on) => run_script(
            speaker,
            uuid,
            seq![SpeakerCallView::SetCrossfade(on)],
        ),
        ZoneActionView::SetPlayMode(mode, on) => run_script(
            speaker,
            uuid,
            seq![SpeakerCallView::SetPlaybackMode(mode, on)],
        ),
        ZoneActionView::ClearQueue => run_script(speaker, uuid, seq![SpeakerCallView::ClearQueue]),
        ZoneActionView::GetQueue => run_script(speaker, uuid, seq![SpeakerCallView::Queue]),
        ZoneActionView::TakeSnapshot => run_script(speaker, uuid, seq![SpeakerCallView::Snapshot]),
        ZoneActionView::ApplySnapshot(snapshot) => run_script(
            speaker,
            uuid,
            seq![SpeakerCallView::Apply(snapshot)],
        ),
        ZoneActionView::SetRelVolume(delta) => run_script(
            speaker,
            uuid,
            seq![SpeakerCallView::SetVolumeRelative(delta)],
        ),
    }
}

/// What the dispatcher does first with an action addressed to a room. The
/// existence check is answered from the registry. Every other action goes
/// to the coordinator of the group that contains the room, and is answered
/// `NotOk` where the room, its group or the coordinator is not known.
pub open spec fn first_step<D, W>(
    action: ZoneActionView,
    name: Seq<char>,
    system: SystemView<D, W>,
) -> StepView {
    if action is Exists {
        if any_item(system.speakerdata, has_exact_name(name)) {
            StepView::Reply(Response::Okay)
        } else {
            StepView::Reply(Response::NotOk)
        }
    } else {
        match coordinator_for_name(system, name) {
            Some(c) => act_on(
                action,
                c as usize,
                system.speakerdata[c].speaker.uuid,
                cached_track_no(system.speakerdata[c].transport_data),
            ),
            None => StepView::Reply(Response::NotOk),
        }
    }
}

/// What the dispatcher does once the call it asked for has ended.
pub open spec fn next_step(dispatch: DispatchView, result: CallResultView) -> StepView {
    match dispatch.stage {
        StageView::SeekTrack(delta) => seek_by(
            dispatch.speaker,
            dispatch.uuid,
            live_track(result),
            delta,
        ),
        StageView::QueueTrack(media) => queue_after(
            dispatch.speaker,
            dispatch.uuid,
            media,
            live_track(result),
        ),
        StageView::QueueBrowse(media, current) => match result {
            CallResultView::Contents(listed) => queue_media(
                dispatch.speaker,
                dispatch.uuid,
                media_of(media, listed),
                current,
            ),
            _ => StepView::Reply(Response::NotOk),
        },
        StageView::PlayBrowse(media) => match result {
            CallResultView::Contents(listed) => play_media(
                dispatch.speaker,
                dispatch.uuid,
                media_of(media, listed),
            ),
            _ => StepView::Reply(Response::NotOk),
        },
        StageView::Script => if result is Failed {
            StepView::Reply(Response::NotOk)
        } else if dispatch.script.len() == 0 {
            StepView::Reply(reply_for(result))
        } else {
            run_script(dispatch.speaker, dispatch.uuid, dispatch.script)
        },
    }
}

/// The track to select when seeking `delta` tracks from the current one.
pub fn seek_rel_track(current: u32, delta: i32) -> (target: Option<u32>)
    ensures
        target == seek_target(current, delta),
{
    if current > 0x7fff_ffff {
        return None;
    }
    let sum: i64 = current as i64 + delta as i64;
    if sum < 1 {
        Some(1)
    } else {
        Some(sum as u32)
    }
}

/// An owned copy of an identifier.
fn copy_of(s: &String) -> (r: String)
    ensures
        r@ == s@,
{
    s.clone()
}

impl Dispatch {
    /// Makes the first call of a script and keeps the rest for later.
    fn run(speaker: usize, uuid: String, script: Vec<SpeakerCall>) -> (step: Step)
        ensures
            step@ == run_script(speaker, uuid@, script.deep_view()),
    {
        let mut script = script;
        if script.len() == 0 {
            Step::Reply(Response::Okay)
        } else {
            let ghost whole = script.deep_view();
            let call = script.remove(0);
            proof {
                assert(script.deep_view() =~= whole.drop_first());
                assert(call@ == whole[0]);
            }
            Step::Call(call, Dispatch { speaker, uuid, stage: Stage::Script, script })
        }
    }

    /// Makes one call and nothing after it.
    fn run_one(speaker: usize, uuid: String, call: SpeakerCall) -> (step: Step)
        ensures
            step@ == run_script(speaker, uuid@, seq![call@]),
    {
        let mut script: Vec<SpeakerCall> = Vec::new();
        script.push(call);
        proof {
            assert(script.deep_view() =~= seq![call@]);
        }
        Dispatch::run(speaker, uuid, script)
    }

    /// Asks for something that the action needs before it can go on.
    fn ask(speaker: usize, uuid: String, call: SpeakerCall, stage: Stage) -> (step: Step)
        ensures
            step@ == ask(speaker, uuid@, call@, stage@),
    {
        let script: Vec<SpeakerCall> = Vec::new();
        proof {
            assert(script.deep_view() =~= Seq::empty());
        }
        Step::Call(call, Dispatch { speaker, uuid, stage, script })
    }

    fn seek(speaker: usize, uuid: String, current: u32, delta: i32) -> (step: Step)
        ensures
            step@ == seek_by(speaker, uuid@, current, delta),
    {
        match seek_rel_track(current, delta) {
            Some(target) => Dispatch::run_one(speaker, uuid, SpeakerCall::SeekTrack(target)),
            None => Step::Reply(Response::NotOk),
        }
    }

    fn queue_found(
        speaker: usize,
        uuid: String,
        media: Option<(String, String)>,
        current: u32,
    ) -> (step: Step)
        ensures
            step@ == queue_media(speaker, uuid@, media.deep_view(), current),
    {
        match media {
            Some((uri, metadata)) => {
                if current == u32::MAX {
                    Step::Reply(Response::NotOk)
                } else {
                    let call = SpeakerCall::QueueNext {
                        uri,
                        metadata: escape_str_pcdata(metadata.as_str()),
                        position: current + 1,
                    };
                    Dispatch::run_one(speaker, uuid, call)
                }
            },
            None => Step::Reply(Response::NotOk),
        }
    }

    fn queue_behind(speaker: usize, uuid: String, media: MediaSource, current: u32) -> (step: Step)
        ensures
            step@ == queue_after(speaker, uuid@, media@, current),
    {
        match media.container() {
            Some(container) => {
                let call = SpeakerCall::Browse(String::from_str(container));
                Dispatch::ask(speaker, uuid, call, Stage::QueueBrowse(media, current))
            },
            None => {
                let nothing: Vec<Content> = Vec::new();
                proof {
                    assert(nothing.deep_view() =~= Seq::empty());
                }
                let found = media.get_uri_and_metadata(&nothing);
                Dispatch::queue_found(speaker, uuid, found, current)
            },
        }
    }

    fn play_found(speaker: usize, uuid: String, media: Option<(String, String)>) -> (step: Step)
        ensures
            step@ == play_media(speaker, uuid@, media.deep_view()),
    {
        match media {
            Some((uri, metadata)) => {
                let queue = String::from_str("x-rincon-queue:").concat(uuid.as_str()).concat("#0");
                let mut script: Vec<SpeakerCall> = Vec::new();
                script.push(SpeakerCall::ClearQueue);
                script.push(
                    SpeakerCall::QueueNext {
                        uri,
                        metadata: escape_str_pcdata(metadata.as_str()),
                        position: 1,
                    },
                );
                script.push(SpeakerCall::SetTransportUri { uri: queue, metadata: String::new() });
                script.push(SpeakerCall::Play);
                proof {
                    assert(script.deep_view() =~= play_now_script(uuid@, (uri@, metadata@)));
                }
                Dispatch::run(speaker, uuid, script)
            },
            None => Step::Reply(Response::NotOk),
        }
    }

    /// Goes on with a zone action once the call that was asked for has
    /// ended. A failed call of the script ends the action with `NotOk`; the
    /// outcome of the last call makes the reply.
    pub fn resume(self, result: CallResult) -> (step: Step)
        ensures
            step@ == next_step(self@, result@),
    {
        let Dispatch { speaker, uuid, stage, script } = self;
        match stage {
            Stage::SeekTrack(delta) => {
                let current = match result {
                    CallResult::Track(Some(n)) => n,
                    _ => 0,
                };
                Dispatch::seek(speaker, uuid, current, delta)
            },
            Stage::QueueTrack(media) => {
                let current = match result {
                    CallResult::Track(Some(n)) => n,
                    _ => 0,
                };
                Dispatch::queue_behind(speaker, uuid, media, current)
            },
            Stage::QueueBrowse(media, current) => match result {
                CallResult::Contents(listed) => {
                    let found = media.get_uri_and_metadata(&listed);
                    Dispatch::queue_found(speaker, uuid, found, current)
                },
                _ => Step::Reply(Response::NotOk),
            },
            Stage::PlayBrowse(media) => match result {
                CallResult::Contents(listed) => {
                    let found = media.get_uri_and_metadata(&listed);
                    Dispatch::play_found(speaker, uuid, found)
                },
                _ => Step::Reply(Response::NotOk),
            },
            Stage::Script => match result {
                CallResult::Failed => Step::Reply(Response::NotOk),
                other => {
                    if script.len() == 0 {
                        match other {
                            CallResult::Done => Step::Reply(Response::Okay),
                            CallResult::Queue(queue) => Step::Reply(Response::Queue(queue)),
                            CallResult::Snapshot(snapshot) => Step::Reply(
                                Response::Snapshot(snapshot),
                            ),
                            _ => Step::Reply(Response::NotOk),
                        }
                    } else {
                        Dispatch::run(speaker, uuid, script)
                    }
                },
            },
        }
    }
}

impl ZoneAction {
    /// Takes a zone action addressed to a room in hand: the reply, where it
    /// can be given at once, or the first call to make on the coordinator of
    /// the room's group.
    pub fn handle_action<D, W>(self, system: &System<D, W>, name: &str) -> (step: Step)
        ensures
            step@ == first_step(self@, name@, system@),
            step matches Step::Call(_, dispatch) ==> dispatch.speaker < system.speakerdata.len(),
    {
        if let ZoneAction::Exists = self {
            return if has_speaker_named(&system.speakerdata, name) {
                Step::Reply(Response::Okay)
            } else {
                Step::Reply(Response::NotOk)
            };
        }
        let speaker = match system.coordinator_index_for_name(name) {
            Some(speaker) => speaker,
            None => { return Step::Reply(Response::NotOk); },
        };
        let record = &system.speakerdata[speaker];
        let uuid = copy_of(&record.speaker.uuid);
        let cached = record.get_current_track_no();
        proof {
            assert(system@.speakerdata[speaker as int] == record@);
        }
        match self {
            ZoneAction::Exists => Step::Reply(Response::NotOk),
            ZoneAction::PlayNow(media) => match media.container() {
                Some(container) => {
                    let call = SpeakerCall::Browse(String::from_str(container));
                    Dispatch::ask(speaker, uuid, call, Stage::PlayBrowse(media))
                },
                None => {
                    let nothing: Vec<Content> = Vec::new();
                    proof {
                        assert(nothing.deep_view() =~= Seq::empty());
                    }
                    let found = media.get_uri_and_metadata(&nothing);
                    Dispatch::play_found(speaker, uuid, found)
                },
            },
            ZoneAction::QueueAsNext(media) => match cached {
                Some(Ok(current)) => Dispatch::queue_behind(speaker, uuid, media, current),
                Some(Err(_)) => Dispatch::queue_behind(speaker, uuid, media, 0),
                None => Dispatch::ask(speaker, uuid, SpeakerCall::Track, Stage::QueueTrack(media)),
            },
            ZoneAction::Play => Dispatch::run_one(speaker, uuid, SpeakerCall::Play),
            ZoneAction::Pause => Dispatch::run_one(speaker, uuid, SpeakerCall::Pause),
            ZoneAction::PlayPause => Dispatch::run_one(speaker, uuid, SpeakerCall::PlayOrPause),
            ZoneAction::NextTrack => Dispatch::run_one(speaker, uuid, SpeakerCall::Next),
            ZoneAction::PreviousTrack => Dispatch::run_one(speaker, uuid, SpeakerCall::Previous),
            ZoneAction::SeekTime(seconds) => Dispatch::run_one(
                speaker,
                uuid,
                SpeakerCall::SkipTo(seconds),
            ),
            ZoneAction::SeekTrack(number) => Dispatch::run_one(
                speaker,
                uuid,
                SpeakerCall::SeekTrack(number),
            ),
            ZoneAction::SeekRelTrack(delta) => match cached {
                Some(Ok(current)) => Dispatch::seek(speaker, uuid, current, delta),
                Some(Err(_)) => Dispatch::seek(speaker, uuid, 0, delta),
                None => Dispatch::ask(speaker, uuid, SpeakerCall::Track, Stage::SeekTrack(delta)),
            },
            ZoneAction::SetRepeat(mode) => Dispatch::run_one(
                speaker,
                uuid,
                SpeakerCall::SetRepeatMode(mode),
            ),
            ZoneAction::SetShuffle(on) => Dispatch::run_one(
                speaker,
                uuid,
                SpeakerCall::SetShuffle(on),
            ),
            ZoneAction::SetCrossfade(on) => Dispatch::run_one(
                speaker,
                uuid,
                SpeakerCall::SetCrossfade(on),
            ),
            ZoneAction::SetPlayMode(mode, on) => Dispatch::run_one(
                speaker,
                uuid,
                SpeakerCall::SetPlaybackMode(mode, on),
            ),
            ZoneAction::ClearQueue => Dispatch::run_one(speaker, uuid, SpeakerCall::ClearQueue),
            ZoneAction::GetQueue => Dispatch::run_one(speaker, uuid, SpeakerCall::Queue),
            ZoneAction::TakeSnapshot => Dispatch::run_one(speaker, uuid, SpeakerCall::Snapshot),
            ZoneAction::ApplySnapshot(snapshot) => Dispatch::run_one(
                speaker,
                uuid,
                SpeakerCall::Apply(snapshot),
            ),
            ZoneAction::SetRelVolume(delta) => Dispatch::run_one(
                speaker,
                uuid,
                SpeakerCall::SetVolumeRelative(delta),
            ),
        }
    }
}

} // verus!
