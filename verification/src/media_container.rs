use vstd::prelude::*;

use crate::error::Error;
use crate::pipeline::{spec_target_state, PipelineState};

verus! {

#[verifier::external_type_specification]
#[verifier::external_body]
#[verifier::reject_recursive_types(T)]
pub struct ExRatio<T>(num_rational::Ratio<T>);

/// The ratio `numer / denom` exactly as given, neither reduced nor checked.
pub uninterp spec fn raw_ratio(numer: i32, denom: i32) -> num_rational::Ratio<i32>;

/// Calls `num_rational::Ratio::new_raw`, which builds the ratio `numer / denom` without
/// reducing it or checking the denominator; the result is named by `raw_ratio`.
#[verifier::external_body]
fn ratio_new_raw(numer: i32, denom: i32) -> (r: num_rational::Ratio<i32>)
    ensures
        r == raw_ratio(numer, denom),
{
    num_rational::Ratio::new_raw(numer, denom)
}

/// The span of time of `nanos` nanoseconds.
pub uninterp spec fn duration_of_nanos(nanos: u64) -> std::time::Duration;

/// Calls `std::time::Duration::from_nanos`, which makes the span of `nanos` nanoseconds;
/// the result is named by `duration_of_nanos`.
#[verifier::external_body]
fn duration_from_nanos(nanos: u64) -> (d: std::time::Duration)
    ensures
        d == duration_of_nanos(nanos),
{
    std::time::Duration::from_nanos(nanos)
}

/// What is to be done with the pipeline when the next frame is due.
#[derive(Debug, Clone, Copy, PartialEq, Eq, Structural)]
pub enum NextFrameAction {
    /// Nothing: playback goes on as it is.
    Continue,
    /// Start the stream again: seek to its beginning and play.
    Restart,
    /// The stream has ended and does not loop: pause it.
    PauseAtEnd,
}

impl NextFrameAction {
    /// The state the pipeline is to be put in for this action, if any.
    pub open spec fn spec_pipeline_state(self) -> Option<PipelineState> {
        match self {
            NextFrameAction::Continue => None,
            NextFrameAction::Restart => Some(PipelineState::Playing),
            NextFrameAction::PauseAtEnd => Some(PipelineState::Paused),
        }
    }

    /// The state the pipeline is to be put in for this action, if any.
    pub fn pipeline_state(self) -> (state: Option<PipelineState>)
        ensures
            state == self.spec_pipeline_state(),
    {
        match self {
            NextFrameAction::Continue => None,
            NextFrameAction::Restart => Some(PipelineState::Playing),
            NextFrameAction::PauseAtEnd => Some(PipelineState::Paused),
        }
    }

    /// Whether the pipeline is to seek back to the beginning of the stream.
    pub fn seeks_to_start(self) -> (seek: bool)
        ensures
            seek <==> self == NextFrameAction::Restart,
    {
        match self {
            NextFrameAction::Restart => true,
            _ => false,
        }
    }
}

/// What the capabilities of a stream's video sink tell: its size and its framerate.
#[derive(Debug, Clone, Copy, PartialEq, Eq, Structural)]
pub struct StreamCaps {
    pub width: i32,
    pub height: i32,
    pub framerate_numer: i32,
    pub framerate_denom: i32,
}

/// The state of a media container as the library sees it.
pub struct MediaState {
    /// Width of the video, in pixels.
    pub width: u32,
    /// Height of the video, in pixels.
    pub height: u32,
    /// Frames per second, as numerator and denominator.
    pub framerate: (i32, i32),
    /// Length of the stream, in nanoseconds (0 for a live stream).
    pub duration_nanos: u64,
    /// Whether the audio is muted.
    pub muted: bool,
    /// Whether the media starts again when it ends.
    pub looping: bool,
    /// Whether the stream has ended.
    pub eos: bool,
    /// Whether the stream is to start again from its beginning on the next frame.
    pub restart_stream: bool,
}

impl MediaState {
    /// The state holds together: the stream is set to restart only after it has ended.
    pub open spec fn wf(self) -> bool {
        self.restart_stream ==> self.eos
    }

    /// The state after muting or unmuting the audio.
    pub open spec fn with_muted(self, muted: bool) -> MediaState {
        MediaState { muted, ..self }
    }

    /// The state after turning looping on or off.
    pub open spec fn with_looping(self, looping: bool) -> MediaState {
        MediaState { looping, ..self }
    }

    /// The state after asking for paused (or running) playback: resuming a stream that has
    /// ended sets it to restart from its beginning.
    pub open spec fn after_set_paused(self, paused: bool) -> MediaState {
        MediaState { restart_stream: self.restart_stream || (self.eos && !paused), ..self }
    }

    /// What is to be done when the next frame is due, given whether the pipeline reported
    /// the end of the stream since the last one: a pending restart, or the end of a looping
    /// stream, starts the stream again from its beginning; the end of any other stream
    /// pauses it there.
    pub open spec fn next_frame_action(self, ended: bool) -> NextFrameAction {
        if self.restart_stream || (ended && self.looping) {
            NextFrameAction::Restart
        } else if ended {
            NextFrameAction::PauseAtEnd
        } else {
            NextFrameAction::Continue
        }
    }

    /// The state once the next frame is due, given whether the pipeline reported the end of
    /// the stream since the last one: a restarted stream has not ended, a stream paused at
    /// its end has, and no restart is left pending.
    pub open spec fn after_next_frame(self, ended: bool) -> MediaState {
        match self.next_frame_action(ended) {
            NextFrameAction::Restart => MediaState { eos: false, restart_stream: false, ..self },
            NextFrameAction::PauseAtEnd => MediaState { eos: true, restart_stream: false, ..self },
            NextFrameAction::Continue => MediaState { restart_stream: false, ..self },
        }
    }

    /// What the stream itself is: its size, framerate and length.
    pub open spec fn stream_facts(self) -> (u32, u32, (i32, i32), u64) {
        (self.width, self.height, self.framerate, self.duration_nanos)
    }
}

/// The length of a stream: a live stream has none, any other has the length that was
/// asked of the pipeline.
pub open spec fn spec_stream_duration(live: bool, queried_nanos: Option<u64>) -> u64 {
    if live {
        0
    } else {
        queried_nanos.unwrap()
    }
}

/// The state of a freshly opened stream.
pub open spec fn spec_opened_state(caps: StreamCaps, live: bool, queried_nanos: Option<u64>) -> MediaState {
    MediaState {
        width: caps.width as u32,
        height: caps.height as u32,
        framerate: (caps.framerate_numer, caps.framerate_denom),
        duration_nanos: spec_stream_duration(live, queried_nanos),
        muted: false,
        looping: false,
        eos: false,
        restart_stream: false,
    }
}

/// The playback position, given the position in nanoseconds that was asked of the pipeline:
/// when the pipeline cannot tell, the position is the start.
pub open spec fn spec_position_nanos(queried_nanos: Option<u64>) -> u64 {
    match queried_nanos {
        Some(n) => n,
        None => 0,
    }
}

/// A playing (or paused) media stream: what is known of it, and the queue on which its
/// decoded RGBA frames arrive.
pub struct MediaContainer {
    width: u32,
    height: u32,
    framerate_numer: i32,
    framerate_denom: i32,
    duration_nanos: u64,
    frame_receiver: crossbeam_channel::Receiver<Vec<u8>>,
    muted: bool,
    looping: bool,
    is_eos: bool,
    restart_stream: bool,
}

impl View for MediaContainer {
    type V = MediaState;

    closed spec fn view(&self) -> MediaState {
        MediaState {
            width: self.width,
            height: self.height,
            framerate: (self.framerate_numer, self.framerate_denom),
            duration_nanos: self.duration_nanos,
            muted: self.muted,
            looping: self.looping,
            eos: self.is_eos,
            restart_stream: self.restart_stream,
        }
    }
}

impl MediaContainer {
    /// The queue on which the decoded frames of this stream arrive.
    pub closed spec fn spec_frame_receiver(&self) -> crossbeam_channel::Receiver<Vec<u8>> {
        self.frame_receiver
    }

    /// Makes the container of a stream that the pipeline has opened: `caps` are what its
    /// video sink reported, `queried_duration_nanos` the length that was asked of the
    /// pipeline (needed unless the stream is live), and `frame_receiver` the queue on which
    /// its frames arrive. Audio starts unmuted, looping off.
    pub fn new(
        caps: StreamCaps,
        live: bool,
        queried_duration_nanos: Option<u64>,
        frame_receiver: crossbeam_channel::Receiver<Vec<u8>>,
    ) -> (r: Result<MediaContainer, Error>)
        requires
            !live ==> queried_duration_nanos is Some,
        ensures
            r is Ok,
            r matches Ok(c) ==> {
                &&& c@ == spec_opened_state(caps, live, queried_duration_nanos)
                &&& c.spec_frame_receiver() == frame_receiver
            },
    {
        let duration_nanos: u64 = if live {
            0
        } else {
            match queried_duration_nanos {
                Some(n) => n,
                None => 0,
            }
        };
        Ok(MediaContainer {
            width: caps.width as u32,
            height: caps.height as u32,
            framerate_numer: caps.framerate_numer,
            framerate_denom: caps.framerate_denom,
            duration_nanos,
            frame_receiver,
            muted: false,
            looping: false,
            is_eos: false,
            restart_stream: false,
        })
    }

    /// The size of the video as `(width, height)`.
    pub fn size(&self) -> (size: (u32, u32))
        ensures
            size == (self@.width, self@.height),
    {
        (self.width, self.height)
    }

    /// The framerate of the video, in frames per second.
    pub fn framerate(&self) -> (rate: num_rational::Ratio<i32>)
        ensures
            rate == raw_ratio(self@.framerate.0, self@.framerate.1),
    {
        ratio_new_raw(self.framerate_numer, self.framerate_denom)
    }

    /// Mutes or unmutes the audio, without changing the volume.
    pub fn set_muted(&mut self, muted: bool)
        ensures
            final(self)@ == old(self)@.with_muted(muted),
            final(self).spec_frame_receiver() == old(self).spec_frame_receiver(),
    {
        self.muted = muted;
    }

    /// Whether the audio is muted.
    pub fn muted(&self) -> (muted: bool)
        ensures
            muted == self@.muted,
    {
        self.muted
    }

    /// Whether the stream has ended.
    pub fn eos(&self) -> (eos: bool)
        ensures
            eos == self@.eos,
    {
        self.is_eos
    }

    /// Whether the media starts again when it ends.
    pub fn looping(&self) -> (looping: bool)
        ensures
            looping == self@.looping,
    {
        self.looping
    }

    /// Turns looping on or off.
    pub fn set_looping(&mut self, looping: bool)
        ensures
            final(self)@ == old(self)@.with_looping(looping),
            final(self).spec_frame_receiver() == old(self).spec_frame_receiver(),
    {
        self.looping = looping;
    }

    /// Asks for paused (or running) playback, and hands back the pipeline state that the
    /// stream is to be put in. Resuming a stream that has ended sets it to restart from
    /// its beginning on the next frame.
    pub fn set_paused(&mut self, paused: bool) -> (target: PipelineState)
        ensures
            target == spec_target_state(paused),
            final(self)@ == old(self)@.after_set_paused(paused),
            final(self).spec_frame_receiver() == old(self).spec_frame_receiver(),
    {
        if self.is_eos && !paused {
            self.restart_stream = true;
        }
        if paused {
            PipelineState::Paused
        } else {
            PipelineState::Playing
        }
    }

    /// Whether the stream counts as paused, given the state that its pipeline reports.
    pub fn paused(&self, current_state: PipelineState) -> (paused: bool)
        ensures
            paused <==> current_state == PipelineState::Paused,
    {
        match current_state {
            PipelineState::Paused => true,
            _ => false,
        }
    }

    /// The playback position, given the position in nanoseconds that was asked of the
    /// pipeline: when the pipeline cannot tell, the position is the start.
    pub fn position(&self, queried_position_nanos: Option<u64>) -> (position: std::time::Duration)
        ensures
            position == duration_of_nanos(spec_position_nanos(queried_position_nanos)),
    {
        let nanos: u64 = match queried_position_nanos {
            Some(n) => n,
            None => 0,
        };
        duration_from_nanos(nanos)
    }

    /// Decides what happens when the next frame is due. `ended` tells whether the pipeline
    /// reported the end of the stream since the last frame. A restart that was asked for
    /// (by resuming an ended stream), or the end of a looping stream, restarts the stream
    /// from its beginning and clears the end-of-stream flag; the end of a stream that does
    /// not loop sets the end-of-stream flag and pauses the stream.
    pub fn next_frame(&mut self, ended: bool) -> (action: NextFrameAction)
        ensures
            action == old(self)@.next_frame_action(ended),
            final(self)@ == old(self)@.after_next_frame(ended),
            final(self).spec_frame_receiver() == old(self).spec_frame_receiver(),
    {
        let restart = self.restart_stream || (ended && self.looping);
        self.restart_stream = false;
        if restart {
            self.is_eos = false;
            NextFrameAction::Restart
        } else if ended {
            self.is_eos = true;
            NextFrameAction::PauseAtEnd
        } else {
            NextFrameAction::Continue
        }
    }

    /// The length of the stream.
    pub fn duration(&self) -> (d: std::time::Duration)
        ensures
            d == duration_of_nanos(self@.duration_nanos),
    {
        duration_from_nanos(self.duration_nanos)
    }

    /// The queue on which the decoded RGBA frames of the stream arrive.
    pub fn frame_receiver(&self) -> (r: &crossbeam_channel::Receiver<Vec<u8>>)
        ensures
            *r == self.spec_frame_receiver(),
    {
        &self.frame_receiver
    }
}

/// Muting or unmuting the audio is what `muted` then reports.
pub proof fn law_muted_reads_back(s: MediaState, muted: bool)
    ensures
        s.with_muted(muted).muted == muted,
{
}

/// Turning looping on or off is what `looping` then reports.
pub proof fn law_looping_reads_back(s: MediaState, looping: bool)
    ensures
        s.with_looping(looping).looping == looping,
{
}

/// No operation on a container changes what the stream is: its size, framerate and length.
pub proof fn law_stream_facts_unchanged(s: MediaState, b: bool)
    ensures
        s.with_muted(b).stream_facts() == s.stream_facts(),
        s.with_looping(b).stream_facts() == s.stream_facts(),
        s.after_set_paused(b).stream_facts() == s.stream_facts(),
{
}

/// Pausing or resuming leaves the audio and looping settings and the end-of-stream flag as
/// they were.
pub proof fn law_set_paused_keeps_settings(s: MediaState, paused: bool)
    ensures
        s.after_set_paused(paused).muted == s.muted,
        s.after_set_paused(paused).looping == s.looping,
        s.after_set_paused(paused).eos == s.eos,
{
}

/// A stream is set to restart only when playback is resumed after the stream has ended.
pub proof fn law_restart_only_on_resume_after_end(s: MediaState, paused: bool)
    ensures
        s.after_set_paused(paused).restart_stream && !s.restart_stream ==> s.eos && !paused,
        s.eos && !paused ==> s.after_set_paused(paused).restart_stream,
{
}

/// Asking twice for the same playback state is the same as asking once.
pub proof fn law_set_paused_idempotent(s: MediaState, paused: bool)
    ensures
        s.after_set_paused(paused).after_set_paused(paused) == s.after_set_paused(paused),
{
}

/// A freshly opened stream holds together, and every operation keeps it so: a stream is
/// never set to restart before it has ended.
pub proof fn law_state_stays_well_formed(
    caps: StreamCaps,
    live: bool,
    queried_nanos: Option<u64>,
    s: MediaState,
    b: bool,
)
    ensures
        spec_opened_state(caps, live, queried_nanos).wf(),
        s.wf() ==> s.with_muted(b).wf(),
        s.wf() ==> s.with_looping(b).wf(),
        s.wf() ==> s.after_set_paused(b).wf(),
{
}

/// When a stream that does not loop ends, and no restart is pending, it is paused at its
/// end and reports that it has ended.
pub proof fn law_end_without_looping_pauses(s: MediaState)
    requires
        !s.looping,
        !s.restart_stream,
    ensures
        s.next_frame_action(true) == NextFrameAction::PauseAtEnd,
        s.after_next_frame(true).eos,
        s.next_frame_action(true).spec_pipeline_state() == Some(PipelineState::Paused),
{
}

/// When a looping stream ends, it starts again from its beginning and does not report that
/// it has ended.
pub proof fn law_end_with_looping_restarts(s: MediaState)
    requires
        s.looping,
    ensures
        s.next_frame_action(true) == NextFrameAction::Restart,
        !s.after_next_frame(true).eos,
        s.next_frame_action(true).spec_pipeline_state() == Some(PipelineState::Playing),
{
}

/// Resuming a stream that was paused at its end starts it again from its beginning on the
/// next frame, after which it no longer reports that it has ended.
pub proof fn law_resume_after_end_restarts(s: MediaState)
    requires
        s.eos,
    ensures
        s.after_set_paused(false).next_frame_action(false) == NextFrameAction::Restart,
        !s.after_set_paused(false).after_next_frame(false).eos,
        !s.after_set_paused(false).after_next_frame(false).restart_stream,
{
}

/// While the stream neither ends nor is set to restart, the next frame changes nothing.
pub proof fn law_quiet_frame_changes_nothing(s: MediaState)
    requires
        !s.restart_stream,
    ensures
        s.next_frame_action(false) == NextFrameAction::Continue,
        s.after_next_frame(false) == s,
{
}

/// The end-of-stream flag tells whether the stream has ended: a fresh stream has not, a
/// stream that ends without looping has, and it stays so until it is restarted.
pub proof fn law_eos_tracks_the_end(
    caps: StreamCaps,
    live: bool,
    queried_nanos: Option<u64>,
    s: MediaState,
    b: bool,
)
    ensures
        !spec_opened_state(caps, live, queried_nanos).eos,
        s.eos ==> s.with_muted(b).eos && s.with_looping(b).eos && s.after_set_paused(b).eos,
        s.eos && !s.restart_stream ==> s.after_next_frame(false).eos,
        s.after_next_frame(b).eos <==> s.next_frame_action(b) == NextFrameAction::PauseAtEnd
            || (s.eos && s.next_frame_action(b) == NextFrameAction::Continue),
{
}

/// The next frame keeps what the stream is and the audio and looping settings, keeps the
/// state well formed, and leaves no restart pending.
pub proof fn law_next_frame_keeps_settings(s: MediaState, ended: bool)
    ensures
        s.after_next_frame(ended).stream_facts() == s.stream_facts(),
        s.after_next_frame(ended).muted == s.muted,
        s.after_next_frame(ended).looping == s.looping,
        !s.after_next_frame(ended).restart_stream,
        s.after_next_frame(ended).wf(),
{
}

/// A restart that is pending always wins over everything else on the next frame, even when
/// the pipeline reports the end of the stream again: the stream starts from its beginning
/// and no longer reports that it has ended.
pub proof fn law_pending_restart_wins(s: MediaState, ended: bool)
    requires
        s.restart_stream,
    ensures
        s.next_frame_action(ended) == NextFrameAction::Restart,
        !s.after_next_frame(ended).eos,
        !s.after_next_frame(ended).restart_stream,
{
}

/// A stream that does not loop, paused at its end and then resumed, restarts on the next
/// frame whether or not the pipeline reports the end once more.
pub proof fn law_resumed_stream_restarts_even_at_end(s: MediaState, ended: bool)
    requires
        !s.looping,
        !s.restart_stream,
    ensures
        s.after_next_frame(true).after_set_paused(false).next_frame_action(ended)
            == NextFrameAction::Restart,
        !s.after_next_frame(true).after_set_paused(false).after_next_frame(ended).eos,
{
}

/// The playback position is the position the pipeline reported, to the nanosecond, and the
/// start when it reported none.
pub proof fn law_position_is_the_reported_one(n: u64)
    ensures
        spec_position_nanos(Some(n)) == n,
        spec_position_nanos(None) == 0,
{
}

/// Every freshly opened stream, live or not, starts unmuted, not looping, not ended and
/// with no restart pending; its size is the caps' size and its framerate the caps'
/// framerate; a live stream has length 0 and any other the length that was asked of the
/// pipeline.
pub proof fn law_opened_stream_defaults(caps: StreamCaps, live: bool, queried_nanos: Option<u64>)
    ensures
        !spec_opened_state(caps, live, queried_nanos).muted,
        !spec_opened_state(caps, live, queried_nanos).looping,
        !spec_opened_state(caps, live, queried_nanos).eos,
        !spec_opened_state(caps, live, queried_nanos).restart_stream,
        spec_opened_state(caps, live, queried_nanos).width == caps.width as u32,
        spec_opened_state(caps, live, queried_nanos).height == caps.height as u32,
        spec_opened_state(caps, live, queried_nanos).framerate == (
            caps.framerate_numer,
            caps.framerate_denom,
        ),
        live ==> spec_opened_state(caps, live, queried_nanos).duration_nanos == 0,
        (!live && queried_nanos is Some) ==> spec_opened_state(caps, live, queried_nanos).duration_nanos
            == queried_nanos.unwrap(),
{
}

/// A freshly opened stream has neither ended nor is set to restart, so pausing and resuming
/// it never sets it to restart.
pub proof fn law_fresh_stream_never_restarts(
    caps: StreamCaps,
    live: bool,
    queried_nanos: Option<u64>,
    paused: bool,
)
    ensures
        !spec_opened_state(caps, live, queried_nanos).after_set_paused(paused).restart_stream,
{
}

} // verus!
