//! What one frame of the float window shows, decided from the lead session
//! and the appearance settings.

use vstd::prelude::*;

use crate::status::{color_of, color_spec, is_working, working, Session};
use crate::text::same_text;
use crate::timer::{elapsed, elapsed_text};

verus! {

/// The text shown when no session leads.
pub open spec fn idle_label() -> Seq<char> {
    "空闲 (－ω－)"@
}

/// Everything a drawn frame depends on besides fonts and pixel geometry.
pub struct Scene {
    /// State of the lead session, "idle" when there is none.
    pub state: String,
    /// Label of the lead session, or the idle text.
    pub text: String,
    /// Colour of the dot, the text and the timer.
    pub tint: (u8, u8, u8),
    /// Whether the working animation runs.
    pub animating: bool,
    /// Elapsed-time label; empty when no timer is shown.
    pub timer: String,
    /// Whether a sprite animation is drawn in place of the dot.
    pub want_sprite: bool,
    /// Milliseconds until the next repaint.
    pub repaint_ms: u64,
}

/// The outcome of one frame.
pub enum Plan {
    /// The float window was switched off: the window closes itself.
    Close,
    /// Draw this scene.
    Draw(Scene),
}

/// The scene for a lead session (or none), the "crab" animation setting,
/// whether a custom GIF is present, and the seconds since the lead started
/// (none when it has no start time).
pub open spec fn scene_matches(
    sc: Scene,
    lead: Option<&Session>,
    anim_style: Seq<char>,
    gif_present: bool,
    timer_secs: Option<i64>,
) -> bool {
    let state = match lead {
        Some(s) => s.state@,
        None => "idle"@,
    };
    &&& sc.state@ == state
    &&& sc.text@ == match lead {
        Some(s) => s.label@,
        None => idle_label(),
    }
    &&& sc.tint == color_spec(state)
    &&& sc.animating == is_working(state)
    &&& sc.timer@ == match timer_secs {
        Some(n) => elapsed_text(n as int),
        None => Seq::<char>::empty(),
    }
    &&& sc.want_sprite == (is_working(state) && (gif_present || anim_style == "crab"@))
    &&& sc.repaint_ms == if is_working(state) { 33u64 } else { 500u64 }
}

/// Plans one frame. The window closes itself when `float_window` is off;
/// otherwise the scene follows the lead session, falls back to "idle" when
/// there is none, draws a sprite only while working and only when a custom
/// GIF is present or the crab style is chosen, and repaints every 33 ms while
/// working and every 500 ms otherwise.
pub fn plan_frame(
    lead: Option<&Session>,
    float_window: bool,
    anim_style: &str,
    gif_present: bool,
    timer_secs: Option<i64>,
) -> (p: Plan)
    ensures
        p is Close <==> !float_window,
        p matches Plan::Draw(sc) ==> scene_matches(sc, lead, anim_style@, gif_present, timer_secs),
        p matches Plan::Draw(sc) ==> {
            &&& lead is None ==> sc.state@ == "idle"@ && sc.text@ == "空闲 (－ω－)"@
            &&& sc.tint == color_spec(sc.state@)
            &&& timer_secs matches Some(n) ==> sc.timer@ == elapsed_text(n as int)
            &&& lead matches Some(s) ==> sc.state@ == s.state@ && sc.text@ == s.label@
            &&& (sc.animating <==> (sc.state@ == "thinking"@ || sc.state@ == "tool"@))
            &&& sc.repaint_ms == (if sc.animating { 33u64 } else { 500u64 })
            &&& (sc.want_sprite <==> (sc.animating && (gif_present || anim_style@ == "crab"@)))
            &&& (timer_secs is None <==> sc.timer@.len() == 0)
        },
{
    if !float_window {
        return Plan::Close;
    }
    let (state, text): (String, String) = match lead {
        Some(s) => (s.state.clone(), s.label.clone()),
        None => ("idle".to_owned(), "空闲 (－ω－)".to_owned()),
    };
    let tint = color_of(state.as_str());
    let animating = working(state.as_str());
    let timer = match timer_secs {
        Some(n) => elapsed(n),
        None => String::new(),
    };
    let want_sprite = animating && (gif_present || same_text(anim_style, "crab"));
    let repaint_ms: u64 = if animating { 33 } else { 500 };
    Plan::Draw(Scene { state, text, tint, animating, timer, want_sprite, repaint_ms })
}

/// A frame animates exactly while the session is thinking or running a tool;
/// then it repaints every 33 ms and may draw a sprite, otherwise it repaints
/// every 500 ms and draws the plain dot.
pub proof fn frame_animates_exactly_while_working(
    sc: Scene,
    lead: Option<&Session>,
    anim_style: Seq<char>,
    gif_present: bool,
    timer_secs: Option<i64>,
)
    requires
        scene_matches(sc, lead, anim_style, gif_present, timer_secs),
    ensures
        sc.animating <==> (sc.state@ == "thinking"@ || sc.state@ == "tool"@),
        (sc.state@ == "thinking"@ || sc.state@ == "tool"@) ==> sc.repaint_ms == 33,
        !(sc.state@ == "thinking"@ || sc.state@ == "tool"@) ==> sc.repaint_ms == 500 && !sc.want_sprite,
        sc.want_sprite <==> (sc.animating && (gif_present || anim_style == "crab"@)),
{
}

} // verus!
