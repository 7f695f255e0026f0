//! Playback-intent reducer.
//!
//! The player's transient state carries the loaded source, a sticky
//! play/pause flag, and two one-shot edges (seek and volume). Both edges
//! are cleared at the start of every command, before the command's own
//! effect is applied, so a render pass never acts twice on a stale edge.

use vstd::prelude::*;

verus! {

/// One-shot seek intent: shift playback ten seconds, once.
#[derive(Debug, Clone, Copy, PartialEq, Eq, Structural)]
pub enum SeekEdge {
    Backward,
    Neutral,
    Forward,
}

/// One-shot volume intent: nudge the live volume ten percent, once.
#[derive(Debug, Clone, Copy, PartialEq, Eq, Structural)]
pub enum VolumeEdge {
    Down,
    Neutral,
    Up,
}

/// Transient playback intent. The authoritative position and volume live
/// in the media stream; this state only records what the next render pass
/// should do to them.
#[derive(Debug)]
pub struct Player {
    /// Currently loaded media file, if any.
    pub source: Option<String>,
    /// Sticky play/pause flag; persists across renders.
    pub playing: bool,
    /// Edge-triggered relative-seek intent.
    pub seek_edge: SeekEdge,
    /// Edge-triggered volume-step intent.
    pub volume_edge: VolumeEdge,
}

/// Commands the player reducer accepts.
#[derive(Debug)]
pub enum PlayerMsg {
    SetVideo(String),
    PlayPause,
    SeekForwards,
    SeekBackwards,
    VolumeUp,
    VolumeDown,
}

/// `s` with both one-shot edges cleared and everything else kept.
pub open spec fn clear_edges(s: Player) -> Player {
    Player { seek_edge: SeekEdge::Neutral, volume_edge: VolumeEdge::Neutral, ..s }
}

/// The reducer as a mathematical function: edges are cleared first, then
/// the command's own effect is applied.
pub open spec fn step(s: Player, m: PlayerMsg) -> Player {
    let c = clear_edges(s);
    match m {
        PlayerMsg::SetVideo(path) => Player { source: Some(path), ..c },
        PlayerMsg::PlayPause => Player { playing: !s.playing, ..c },
        PlayerMsg::SeekForwards => Player { seek_edge: SeekEdge::Forward, ..c },
        PlayerMsg::SeekBackwards => Player { seek_edge: SeekEdge::Backward, ..c },
        PlayerMsg::VolumeUp => Player { volume_edge: VolumeEdge::Up, ..c },
        PlayerMsg::VolumeDown => Player { volume_edge: VolumeEdge::Down, ..c },
    }
}

/// Running a whole command sequence from `s`, first command first.
pub open spec fn run(s: Player, ms: Seq<PlayerMsg>) -> Player
    decreases ms.len(),
{
    if ms.len() == 0 {
        s
    } else {
        run(step(s, ms[0]), ms.skip(1))
    }
}

/// At most one of the two one-shot edges is set.
pub open spec fn at_most_one_edge(s: Player) -> bool {
    s.seek_edge is Neutral || s.volume_edge is Neutral
}

impl Player {
    /// Fresh player: nothing loaded, paused, both edges neutral.
    pub fn new() -> (r: Player)
        ensures
            r.source is None,
            !r.playing,
            r.seek_edge is Neutral,
            r.volume_edge is Neutral,
    {
        Player {
            source: None,
            playing: false,
            seek_edge: SeekEdge::Neutral,
            volume_edge: VolumeEdge::Neutral,
        }
    }

    /// Apply one command: clear both edges, then the command's effect.
    pub fn update(&mut self, msg: PlayerMsg)
        ensures
            *final(self) == step(*old(self), msg),
    {
        self.seek_edge = SeekEdge::Neutral;
        self.volume_edge = VolumeEdge::Neutral;
        match msg {
            PlayerMsg::SetVideo(path) => {
                self.source = Some(path);
            }
            PlayerMsg::PlayPause => {
                self.playing = !self.playing;
            }
            PlayerMsg::SeekForwards => {
                self.seek_edge = SeekEdge::Forward;
            }
            PlayerMsg::SeekBackwards => {
                self.seek_edge = SeekEdge::Backward;
            }
            PlayerMsg::VolumeUp => {
                self.volume_edge = VolumeEdge::Up;
            }
            PlayerMsg::VolumeDown => {
                self.volume_edge = VolumeEdge::Down;
            }
        }
    }
}

impl Default for Player {
    /// Same state as `Player::new`.
    fn default() -> (r: Player)
        ensures
            r.source is None,
            !r.playing,
            r.seek_edge is Neutral,
            r.volume_edge is Neutral,
    {
        Player::new()
    }
}

/// Microsecond offset a render pass applies for a seek edge: ten seconds
/// forward, ten seconds back, or nothing.
pub open spec fn seek_offset_spec(e: SeekEdge) -> int {
    match e {
        SeekEdge::Backward => -10_000_000,
        SeekEdge::Neutral => 0,
        SeekEdge::Forward => 10_000_000,
    }
}

/// The relative-seek offset, in microseconds, for one edge.
pub fn seek_offset_us(e: SeekEdge) -> (r: i64)
    ensures
        r == seek_offset_spec(e),
{
    match e {
        SeekEdge::Backward => -10_000_000,
        SeekEdge::Neutral => 0,
        SeekEdge::Forward => 10_000_000,
    }
}

/// The absolute timestamp a render pass seeks to: the stream's current
/// position shifted by the edge's offset.
pub fn seek_target_us(current_us: i64, e: SeekEdge) -> (r: i64)
    requires
        i64::MIN + 10_000_000 <= current_us + seek_offset_spec(e) <= i64::MAX,
    ensures
        r == current_us + seek_offset_spec(e),
{
    current_us + seek_offset_us(e)
}

/// Signed volume step in percent that a render pass applies: a ten-percent
/// nudge up or down, or a zero step in the neutral case (the zero step is
/// still applied on every pass).
pub fn volume_delta_percent(e: VolumeEdge) -> (r: i64)
    ensures
        e is Up ==> r == 10,
        e is Neutral ==> r == 0,
        e is Down ==> r == -10,
{
    match e {
        VolumeEdge::Down => -10,
        VolumeEdge::Neutral => 0,
        VolumeEdge::Up => 10,
    }
}

/// Every command leaves at most one edge set: both edges are cleared
/// before the command's own effect, so two consecutive commands of
/// different kinds never leave both a stale seek and a stale volume edge
/// for the render pass.
pub proof fn lemma_step_edges_exclusive(s: Player, m: PlayerMsg)
    ensures
        at_most_one_edge(step(s, m)),
{
}

/// After any non-empty command sequence, at most one edge is set,
/// whatever state the run began in.
pub proof fn lemma_run_edges_exclusive(s: Player, ms: Seq<PlayerMsg>)
    requires
        ms.len() > 0,
    ensures
        at_most_one_edge(run(s, ms)),
    decreases ms.len(),
{
    if ms.len() == 1 {
        assert(ms.skip(1).len() == 0);
        assert(run(step(s, ms[0]), ms.skip(1)) == step(s, ms[0]));
    } else {
        lemma_run_edges_exclusive(step(s, ms[0]), ms.skip(1));
    }
}

/// Toggling play/pause twice restores the flag: the second toggle also
/// restores the source, and leaves both edges cleared.
pub proof fn lemma_play_pause_involution(s: Player)
    ensures
        step(step(s, PlayerMsg::PlayPause), PlayerMsg::PlayPause).playing == s.playing,
        step(step(s, PlayerMsg::PlayPause), PlayerMsg::PlayPause).source == s.source,
        at_most_one_edge(step(step(s, PlayerMsg::PlayPause), PlayerMsg::PlayPause)),
{
}

} // verus!
