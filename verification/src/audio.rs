//! Scheduling of the audio stream: every chunk gets its place on the
//! playback timeline by its position in the stream, so that playback neither
//! gaps nor overlaps however late a chunk is decoded.
//!
//! Time is counted in sample frames at the stream's fixed rate, gain in
//! thousandths.

use vstd::prelude::*;

verus! {

/// Sample frames per second.
pub const SAMPLE_RATE: u64 = 48_000;

/// Sample frames per chunk.
pub const CHUNK_FRAMES: u64 = 512;

/// The lead that absorbs the time a chunk takes to decode: a tenth of a
/// second.
pub const LEAD_IN_FRAMES: u64 = 4_800;

/// The bytes that precede the encoded audio in a chunk.
pub const AUDIO_HEADER_BYTES: usize = 5;

/// Unity gain.
pub const FULL_GAIN: u32 = 1_000;

/// The frame at which the chunk at `position` starts to play on a timeline
/// that begins at `origin`.
pub open spec fn start_frame(origin: int, position: int) -> int {
    origin + position * CHUNK_FRAMES + LEAD_IN_FRAMES
}

/// A chunk with its place on the timeline.
#[derive(Debug, Clone, Copy, PartialEq, Eq)]
pub struct ScheduledChunk {
    /// The place of the chunk on its timeline; the first chunk has place
    /// zero.
    pub position: u64,
    /// The frame at which the chunk starts to play.
    pub start: u128,
    /// Where the encoded audio begins in the chunk.
    pub payload_offset: usize,
}

/// The audio state as contracts see it.
pub struct AudioView {
    /// The output path exists.
    pub context: bool,
    pub gain: u32,
    /// The gain to come back to after a mute; never zero.
    pub remembered: u32,
    /// Chunks received on the present timeline.
    pub position: u64,
    /// The frame at which the present timeline began.
    pub origin: u64,
    pub subscribed: Option<u32>,
}

impl AudioView {
    /// The audio before anything happened: no output path, unity gain, no
    /// subscription.
    pub open spec fn fresh() -> AudioView {
        AudioView {
            context: false,
            gain: FULL_GAIN,
            remembered: FULL_GAIN,
            position: 0,
            origin: 0,
            subscribed: None,
        }
    }

    /// A chunk that arrives now is counted: the output path exists and the
    /// counter has room.
    pub open spec fn counts(self) -> bool {
        self.context && self.position < u64::MAX
    }

    /// The state after a chunk arrived at frame `now`: the first chunk of a
    /// timeline sets its origin, and every counted chunk advances the
    /// counter.
    pub open spec fn import_audio_data(self, now: u64) -> AudioView {
        if self.counts() {
            AudioView {
                position: (self.position + 1) as u64,
                origin: if self.position == 0 {
                    now
                } else {
                    self.origin
                },
                ..self
            }
        } else {
            self
        }
    }

    /// The place of a chunk that arrives at frame `now`, if it is counted.
    pub open spec fn schedule(self, now: u64) -> Option<ScheduledChunk> {
        if self.counts() {
            Some(
                ScheduledChunk {
                    position: self.position,
                    start: start_frame(
                        self.import_audio_data(now).origin as int,
                        self.position as int,
                    ) as u128,
                    payload_offset: AUDIO_HEADER_BYTES,
                },
            )
        } else {
            None
        }
    }

    pub open spec fn set_subscribed(self, receiver: Option<u32>) -> AudioView {
        match receiver {
            Some(_) => AudioView { subscribed: receiver, ..self },
            None => AudioView { subscribed: None, position: 0, origin: 0, ..self },
        }
    }

    pub open spec fn set_gain(self, gain: u32) -> AudioView {
        if self.context {
            AudioView {
                gain,
                remembered: if gain == 0 {
                    self.remembered
                } else {
                    gain
                },
                ..self
            }
        } else {
            self
        }
    }

    pub open spec fn toggle_mute(self) -> AudioView {
        if !self.context {
            self
        } else if self.gain == 0 {
            AudioView { gain: self.remembered, ..self }
        } else {
            AudioView { gain: 0, remembered: self.gain, ..self }
        }
    }
}

/// The audio of the subscribed receiver.
pub struct AudioProvider {
    context_created: bool,
    gain: u32,
    remembered_gain: u32,
    audio_pos: u64,
    audio_start_time: u64,
    subscribed_audio: Option<u32>,
}

impl View for AudioProvider {
    type V = AudioView;

    closed spec fn view(&self) -> AudioView {
        AudioView {
            context: self.context_created,
            gain: self.gain,
            remembered: self.remembered_gain,
            position: self.audio_pos,
            origin: self.audio_start_time,
            subscribed: self.subscribed_audio,
        }
    }
}

impl AudioProvider {
    #[verifier::type_invariant]
    spec fn audible(self) -> bool {
        self.remembered_gain != 0
    }

    pub fn new() -> (audio: AudioProvider)
        ensures
            audio@ == AudioView::fresh(),
    {
        AudioProvider {
            context_created: false,
            gain: FULL_GAIN,
            remembered_gain: FULL_GAIN,
            audio_pos: 0,
            audio_start_time: 0,
            subscribed_audio: None,
        }
    }

    /// The receiver whose audio is subscribed to.
    pub fn receiving_audio(&self) -> (receiver: Option<u32>)
        ensures
            receiver == self@.subscribed,
    {
        self.subscribed_audio
    }

    /// Notes the subscription. Without one the timeline starts over.
    pub fn set_subscribed(&mut self, receiver: Option<u32>)
        ensures
            final(self)@ == old(self)@.set_subscribed(receiver),
    {
        proof {
            use_type_invariant(&*self);
        }
        self.subscribed_audio = receiver;
        match receiver {
            Some(_) => (),
            None => {
                self.audio_pos = 0;
                self.audio_start_time = 0;
            },
        }
    }

    /// Notes that the output path was made, at unity gain.
    pub fn create_audio_context(&mut self)
        ensures
            final(self)@ == (AudioView {
                context: true,
                gain: FULL_GAIN,
                remembered: FULL_GAIN,
                ..old(self)@
            }),
    {
        proof {
            use_type_invariant(&*self);
        }
        self.context_created = true;
        self.gain = FULL_GAIN;
        self.remembered_gain = FULL_GAIN;
    }

    /// Takes in a chunk that arrived at frame `now` of the output clock and
    /// says when it is to play. The chunk is counted whether or not its
    /// decoding succeeds later.
    pub fn import_audio_data(&mut self, now: u64) -> (chunk: Option<ScheduledChunk>)
        ensures
            final(self)@ == old(self)@.import_audio_data(now),
            chunk == old(self)@.schedule(now),
    {
        proof {
            use_type_invariant(&*self);
        }
        if !self.context_created {
            return None;
        }
        let position = self.audio_pos;
        match position.checked_add(1) {
            Some(next) => {
                if position == 0 {
                    self.audio_start_time = now;
                }
                self.audio_pos = next;
                let start: u128 = self.audio_start_time as u128 + position as u128 * CHUNK_FRAMES as u128
                    + LEAD_IN_FRAMES as u128;
                Some(ScheduledChunk { position, start, payload_offset: AUDIO_HEADER_BYTES })
            },
            None => None,
        }
    }

    /// Whether the output path exists.
    pub fn audio_ctx(&self) -> (made: bool)
        ensures
            made == self@.context,
    {
        self.context_created
    }

    /// The gain of the output path, if that exists.
    pub fn gain(&self) -> (gain: Option<u32>)
        ensures
            gain == if self@.context {
                Some(self@.gain)
            } else {
                None
            },
    {
        if self.context_created {
            Some(self.gain)
        } else {
            None
        }
    }

    /// Sets the gain of the output path and hands it back for the path to
    /// apply; nothing, where there is no path.
    pub fn set_gain(&mut self, gain: u32) -> (applied: Option<u32>)
        ensures
            final(self)@ == old(self)@.set_gain(gain),
            applied == if old(self)@.context {
                Some(gain)
            } else {
                None
            },
    {
        proof {
            use_type_invariant(&*self);
        }
        if self.context_created {
            self.gain = gain;
            if gain != 0 {
                self.remembered_gain = gain;
            }
            Some(gain)
        } else {
            None
        }
    }

    /// Mutes an audible path and brings a muted one back to the gain it had;
    /// hands back the gain to apply.
    pub fn toggle_mute(&mut self) -> (applied: Option<u32>)
        ensures
            final(self)@ == old(self)@.toggle_mute(),
            applied == if old(self)@.context {
                Some(old(self)@.toggle_mute().gain)
            } else {
                None
            },
            old(self)@.context && old(self)@.gain == 0 ==> applied != Some(0u32),
    {
        proof {
            use_type_invariant(&*self);
        }
        if !self.context_created {
            None
        } else if self.gain == 0 {
            self.gain = self.remembered_gain;
            Some(self.gain)
        } else {
            self.remembered_gain = self.gain;
            self.gain = 0;
            Some(0)
        }
    }
}

/// Chunks that arrive one after the other play one chunk length apart, at
/// the place their position gives them, whenever each arrived.
pub proof fn lemma_chunks_evenly_spaced(audio: AudioView, first: u64, second: u64)
    requires
        audio.context,
        audio.position + 1 < u64::MAX,
    ensures
        audio.schedule(first) is Some,
        audio.import_audio_data(first).schedule(second) is Some,
        audio.import_audio_data(first).schedule(second)->0.position == audio.schedule(first)->0.position + 1,
        audio.import_audio_data(first).schedule(second)->0.start == audio.schedule(first)->0.start
            + CHUNK_FRAMES,
        audio.import_audio_data(first).import_audio_data(second).origin == audio.import_audio_data(
            first,
        ).origin,
{
}

/// On one timeline a later position starts later, by the chunk length for
/// every position between, and the first chunk starts the lead after the
/// origin.
pub proof fn lemma_start_frames_increase(origin: int, earlier: int, later: int)
    requires
        earlier < later,
    ensures
        start_frame(origin, earlier) < start_frame(origin, later),
        start_frame(origin, later) - start_frame(origin, earlier) == (later - earlier) * CHUNK_FRAMES,
        start_frame(origin, 0) == origin + LEAD_IN_FRAMES,
{
}

} // verus!
