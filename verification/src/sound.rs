//! Cancelable alert sounds.
//!
//! Every playback gets a generation token; the player's counter holds the
//! one that is valid. Whatever silences an alert only moves the counter on,
//! and a playback that finds its token stale ends at its next check. Nobody
//! waits for anybody.
//!
//! The playback itself runs elsewhere (it sleeps and drives an audio
//! device). What it does next is decided here, one step at a time.

use vstd::prelude::*;

verus! {

/// The fewest repetitions of a sound.
pub const MIN_REPEATS: u64 = 1;

/// The most repetitions of a sound.
pub const MAX_REPEATS: u64 = 30;

/// Pause between two looks at a file that is playing.
pub const PLAYBACK_POLL_MS: u64 = 70;

/// Pause after the beep that stands in for a file.
pub const FALLBACK_BEEP_PAUSE_MS: u64 = 260;

/// Pause between two repetitions.
pub const REPEAT_GAP_MS: u64 = 140;

/// The counter after one more step; it starts over behind the largest
/// value.
pub open spec fn next_generation(generation: u64) -> u64 {
    if generation == u64::MAX {
        0
    } else {
        (generation + 1) as u64
    }
}

/// The counter after `steps` steps.
pub open spec fn generation_after(generation: u64, steps: nat) -> u64 {
    ((generation + steps) % 0x1_0000_0000_0000_0000) as u64
}

/// A repeat count brought into 1 to 30.
pub open spec fn clamped_repeats(repeats: u64) -> u64 {
    if repeats < MIN_REPEATS {
        MIN_REPEATS
    } else if repeats > MAX_REPEATS {
        MAX_REPEATS
    } else {
        repeats
    }
}

/// The counter of valid playbacks.
#[derive(Clone, Copy, Debug, PartialEq, Eq)]
pub struct SoundPlayer {
    pub generation: u64,
}

/// Where a playback stands.
#[derive(Clone, Copy, Debug, PartialEq, Eq)]
pub enum PlaybackState {
    /// About to start a repetition.
    Ready,
    /// Asked to start the file; the outcome is awaited.
    Starting,
    /// The file is playing.
    Playing,
    /// The sound of this repetition is over.
    Sounded,
    /// Nothing more will be played.
    Done,
}

/// What the playback task reports when it asks for its next step.
#[derive(Clone, Copy, Debug, PartialEq, Eq)]
pub enum PlaybackEvent {
    /// Nothing to report: the task starts, or a pause is over.
    Resumed,
    /// The file was opened and decoded, and plays.
    FileStarted,
    /// There is no file, or it cannot be played.
    FileUnplayable,
    /// The file has played to its end.
    FileFinished,
}

/// What the playback task does next.
#[derive(Clone, Copy, Debug, PartialEq, Eq)]
pub enum PlaybackAction {
    /// Open the file and start it, then report `FileStarted` or
    /// `FileUnplayable`.
    StartFile,
    /// Beep, pause, then report `Resumed`.
    Beep { pause_ms: u64 },
    /// Pause while the file plays, then report `FileFinished` if it has
    /// ended and `Resumed` if not.
    Poll { pause_ms: u64 },
    /// Pause between repetitions, then report `Resumed`.
    Gap { pause_ms: u64 },
    /// Stop the file that is playing and end.
    Abort,
    /// End.
    Finish,
}

/// One playback: its token, the repetitions still to start, whether a file
/// was found for it, and where it stands.
#[derive(Clone, Copy, Debug, PartialEq, Eq)]
pub struct Playback {
    pub generation: u64,
    pub remaining: u64,
    pub has_file: bool,
    pub state: PlaybackState,
}

/// The playback that is over.
pub open spec fn ended(p: Playback) -> Playback {
    Playback { state: PlaybackState::Done, ..p }
}

/// The step of a playback whose token is still valid.
pub open spec fn valid_step(p: Playback, event: PlaybackEvent) -> (Playback, PlaybackAction) {
    match p.state {
        PlaybackState::Ready => if p.remaining == 0 {
            (ended(p), PlaybackAction::Finish)
        } else if p.has_file {
            (Playback { state: PlaybackState::Starting, ..p }, PlaybackAction::StartFile)
        } else {
            (
                Playback { state: PlaybackState::Sounded, ..p },
                PlaybackAction::Beep { pause_ms: FALLBACK_BEEP_PAUSE_MS },
            )
        },
        PlaybackState::Starting => if event == PlaybackEvent::FileStarted {
            (
                Playback { state: PlaybackState::Playing, ..p },
                PlaybackAction::Poll { pause_ms: PLAYBACK_POLL_MS },
            )
        } else {
            (
                Playback { state: PlaybackState::Sounded, ..p },
                PlaybackAction::Beep { pause_ms: FALLBACK_BEEP_PAUSE_MS },
            )
        },
        PlaybackState::Playing => if event == PlaybackEvent::FileFinished {
            after_sound(p)
        } else {
            (p, PlaybackAction::Poll { pause_ms: PLAYBACK_POLL_MS })
        },
        PlaybackState::Sounded => after_sound(p),
        PlaybackState::Done => (p, PlaybackAction::Finish),
    }
}

/// What follows the sound of a repetition: the gap, and then the next
/// repetition if one is left.
pub open spec fn after_sound(p: Playback) -> (Playback, PlaybackAction) {
    let left = if p.remaining > 0 {
        (p.remaining - 1) as u64
    } else {
        0
    };
    (
        Playback {
            remaining: left,
            state: if left == 0 {
                PlaybackState::Done
            } else {
                PlaybackState::Ready
            },
            ..p
        },
        PlaybackAction::Gap { pause_ms: REPEAT_GAP_MS },
    )
}

/// The step of a playback when the valid generation is `current`. A stale
/// playback ends at once, stopping its file if one plays.
pub open spec fn playback_step(p: Playback, current: u64, event: PlaybackEvent) -> (
    Playback,
    PlaybackAction,
) {
    if p.state == PlaybackState::Done {
        (p, PlaybackAction::Finish)
    } else if current != p.generation {
        (
            ended(p),
            if p.state == PlaybackState::Playing {
                PlaybackAction::Abort
            } else {
                PlaybackAction::Finish
            },
        )
    } else {
        valid_step(p, event)
    }
}

/// Whether an action lets a sound begin.
pub open spec fn starts_sound(action: PlaybackAction) -> bool {
    action is StartFile || action is Beep
}

/// Brings a repeat count into 1 to 30.
pub fn clamp_repeats(repeats: u64) -> (r: u64)
    ensures
        r == clamped_repeats(repeats),
{
    if repeats < MIN_REPEATS {
        MIN_REPEATS
    } else if repeats > MAX_REPEATS {
        MAX_REPEATS
    } else {
        repeats
    }
}

impl SoundPlayer {
    /// A player that has handed out no token yet.
    pub fn new() -> (r: Self)
        ensures
            r.generation == 0,
    {
        SoundPlayer { generation: 0 }
    }

    /// Silences whatever plays: the counter moves on, so every token handed
    /// out before is stale.
    pub fn stop(&mut self)
        ensures
            final(self).generation == next_generation(old(self).generation),
    {
        self.generation = if self.generation == u64::MAX {
            0
        } else {
            self.generation + 1
        };
    }

    /// Makes room for a new playback: moves the counter on, which makes
    /// every earlier token stale, and gives the new token.
    pub fn play(&mut self) -> (token: u64)
        ensures
            final(self).generation == next_generation(old(self).generation),
            token == final(self).generation,
    {
        self.stop();
        self.generation
    }

    /// Whether a token is the valid one.
    pub fn is_current(&self, token: u64) -> (r: bool)
        ensures
            r == (token == self.generation),
    {
        token == self.generation
    }
}

impl Playback {
    /// The playback for a token: `repeats` repetitions, brought into 1 to
    /// 30, of the file where one was found and of a beep where not.
    pub fn new(token: u64, has_file: bool, repeats: u64) -> (p: Playback)
        ensures
            p == (Playback {
                generation: token,
                remaining: clamped_repeats(repeats),
                has_file,
                state: PlaybackState::Ready,
            }),
            well_formed(p),
    {
        Playback {
            generation: token,
            remaining: clamp_repeats(repeats),
            has_file,
            state: PlaybackState::Ready,
        }
    }

    /// Decides what the playback does next, given the generation that is
    /// valid now and what the task reports.
    pub fn step(&mut self, current: u64, event: PlaybackEvent) -> (action: PlaybackAction)
        ensures
            (*final(self), action) == playback_step(*old(self), current, event),
    {
        match self.state {
            PlaybackState::Done => {
                return PlaybackAction::Finish;
            },
            _ => {},
        }
        if current != self.generation {
            let playing = match self.state {
                PlaybackState::Playing => true,
                _ => false,
            };
            self.state = PlaybackState::Done;
            return if playing {
                PlaybackAction::Abort
            } else {
                PlaybackAction::Finish
            };
        }
        match self.state {
            PlaybackState::Ready => {
                if self.remaining == 0 {
                    self.state = PlaybackState::Done;
                    PlaybackAction::Finish
                } else if self.has_file {
                    self.state = PlaybackState::Starting;
                    PlaybackAction::StartFile
                } else {
                    self.state = PlaybackState::Sounded;
                    PlaybackAction::Beep { pause_ms: FALLBACK_BEEP_PAUSE_MS }
                }
            },
            PlaybackState::Starting => {
                match event {
                    PlaybackEvent::FileStarted => {
                        self.state = PlaybackState::Playing;
                        PlaybackAction::Poll { pause_ms: PLAYBACK_POLL_MS }
                    },
                    _ => {
                        self.state = PlaybackState::Sounded;
                        PlaybackAction::Beep { pause_ms: FALLBACK_BEEP_PAUSE_MS }
                    },
                }
            },
            PlaybackState::Playing => {
                match event {
                    PlaybackEvent::FileFinished => self.finish_repetition(),
                    _ => PlaybackAction::Poll { pause_ms: PLAYBACK_POLL_MS },
                }
            },
            PlaybackState::Sounded => self.finish_repetition(),
            PlaybackState::Done => PlaybackAction::Finish,
        }
    }

    fn finish_repetition(&mut self) -> (action: PlaybackAction)
        ensures
            (*final(self), action) == after_sound(*old(self)),
    {
        if self.remaining > 0 {
            self.remaining = self.remaining - 1;
        }
        self.state = if self.remaining == 0 {
            PlaybackState::Done
        } else {
            PlaybackState::Ready
        };
        PlaybackAction::Gap { pause_ms: REPEAT_GAP_MS }
    }
}

// ---------------------------------------------------------------------
// Laws of the generation counter
// ---------------------------------------------------------------------
/// One step of the counter is what `generation_after` counts.
pub proof fn lemma_generation_step(generation: u64, steps: nat)
    ensures
        generation_after(generation, 0) == generation,
        next_generation(generation_after(generation, steps)) == generation_after(
            generation,
            steps + 1,
        ),
{
}

/// Two numbers of steps from the same start give different generations as
/// long as they are less than 2^64 apart.
pub proof fn lemma_generations_distinct(generation: u64, fewer: nat, more: nat)
    requires
        fewer < more,
        more - fewer < 0x1_0000_0000_0000_0000,
    ensures
        generation_after(generation, fewer) != generation_after(generation, more),
{
}

/// The token of the `round`-th playback when every playback is preceded
/// by a stop, starting from `generation`: each round moves the counter
/// twice.
pub open spec fn token_of_round(generation: u64, round: nat) -> u64 {
    generation_after(generation, 2 * round)
}

/// Stop and play, time after time, hands out a different token each time:
/// any two of fewer than 2^63 rounds differ, and each differs from the
/// generation that was valid before it.
pub proof fn lemma_tokens_distinct(generation: u64, earlier: nat, later: nat)
    requires
        1 <= earlier < later,
        later < 0x8000_0000_0000_0000,
    ensures
        token_of_round(generation, earlier) != token_of_round(generation, later),
        token_of_round(generation, later) == next_generation(
            next_generation(token_of_round(generation, (later - 1) as nat)),
        ),
        token_of_round(generation, later) != next_generation(
            token_of_round(generation, (later - 1) as nat),
        ),
{
    lemma_generations_distinct(generation, 2 * earlier, 2 * later);
    lemma_generation_step(generation, (2 * later - 2) as nat);
    lemma_generation_step(generation, (2 * later - 1) as nat);
    lemma_generations_distinct(generation, (2 * later - 1) as nat, 2 * later);
}

/// A playback whose token is stale never lets a sound begin, and is over
/// after that step.
pub proof fn lemma_stale_playback_stops(p: Playback, current: u64, event: PlaybackEvent)
    requires
        current != p.generation,
    ensures
        !starts_sound(playback_step(p, current, event).1),
        playback_step(p, current, event).0.state == PlaybackState::Done,
{
}

/// What holds of a playback that `Playback::new` made, at every step:
/// while a repetition is under way, it is one of those that were left.
pub open spec fn well_formed(p: Playback) -> bool {
    (p.state is Starting || p.state is Playing || p.state is Sounded) ==> p.remaining > 0
}

/// A playback lets at most as many sounds begin as it has repetitions
/// left: a step that starts a sound needs one, and the gap that follows
/// the sound uses it up.
pub proof fn lemma_sound_needs_repetition(p: Playback, current: u64, event: PlaybackEvent)
    requires
        well_formed(p),
    ensures
        well_formed(playback_step(p, current, event).0),
        starts_sound(playback_step(p, current, event).1) ==> p.remaining > 0,
        playback_step(p, current, event).0.remaining <= p.remaining,
        playback_step(p, current, event).1 is Gap ==> playback_step(p, current, event).0.remaining
            == p.remaining - 1,
{
}

} // verus!
