//! Frame choice for sprite animations and when to reload them.

use vstd::prelude::*;

verus! {

/// The frame shown at a given tick of an animation with `n` frames:
/// none when there are no frames, otherwise the tick taken modulo `n`.
pub open spec fn frame_spec(tick: nat, n: nat) -> Option<nat> {
    if n == 0 {
        None
    } else {
        Some(tick % n)
    }
}

/// Picks the frame for `tick` (frames elapsed since the start, at the
/// animation's own rate) out of `n_frames`.
pub fn frame_index(tick: usize, n_frames: usize) -> (r: Option<usize>)
    ensures
        r is None <==> n_frames == 0,
        r matches Some(i) ==> frame_spec(tick as nat, n_frames as nat) == Some(i as nat) && i < n_frames,
        n_frames > 0 ==> r == Some((tick % n_frames) as usize),
{
    if n_frames == 0 {
        None
    } else {
        Some(tick % n_frames)
    }
}

/// The animation loops: `n` ticks later the same frame is shown again.
pub proof fn frames_cycle(tick: nat, n: nat)
    requires
        n > 0,
    ensures
        frame_spec(tick + n, n) == frame_spec(tick, n),
{
    vstd::arithmetic::div_mod::lemma_mod_add_multiples_vanish(tick as int, n as int);
}

/// Whether the animation must be (re)loaded: when none is loaded yet, or
/// when the custom GIF's modification time differs from the one it was
/// loaded at (the file was replaced, added or removed).
pub fn reload_needed(loaded: bool, same_gif_time: bool) -> (r: bool)
    ensures
        r == (!loaded || !same_gif_time),
{
    !loaded || !same_gif_time
}

/// Where the sprite animation comes from.
pub enum AnimSource {
    /// The user's GIF in the state directory.
    CustomGif,
    /// The built-in crab.
    BuiltIn,
}

/// Chooses the animation on a reload: the user's GIF whenever it decoded
/// into an animation, the built-in crab otherwise.
pub fn anim_source(gif_decoded: bool) -> (r: AnimSource)
    ensures
        r is CustomGif <==> gif_decoded,
{
    if gif_decoded {
        AnimSource::CustomGif
    } else {
        AnimSource::BuiltIn
    }
}

/// Frames play forwards from the first: tick 0 shows frame 0, and each
/// tick shows the frame after the previous one, wrapping after the last.
pub proof fn frames_play_forwards(tick: nat, n: nat)
    requires
        n > 0,
    ensures
        frame_spec(0, n) == Some(0nat),
        frame_spec(tick, n) matches Some(f) && f < n,
        frame_spec(tick + 1, n) == Some((frame_spec(tick, n)->0 + 1) % n),
{
    vstd::arithmetic::div_mod::lemma_mod_bound(tick as int, n as int);
    vstd::arithmetic::div_mod::lemma_add_mod_noop_right(1, tick as int, n as int);
    vstd::arithmetic::div_mod::lemma_small_mod(0, n);
}

} // verus!
