//! The status dot as an RGBA image, used as the tray icon: every pixel in
//! one colour, with a per-pixel alpha that shapes the round dot.

use vstd::prelude::*;

use crate::status::{color_of, color_spec};

verus! {

/// Byte `i` of the image laid out from per-pixel alphas: pixels in order,
/// each as red, green, blue, alpha.
pub open spec fn dot_byte(alphas: Seq<u8>, rgb: (u8, u8, u8), i: int) -> u8 {
    let c = i % 4;
    if c == 0 {
        rgb.0
    } else if c == 1 {
        rgb.1
    } else if c == 2 {
        rgb.2
    } else {
        alphas[i / 4]
    }
}

/// Lays out the dot image: one pixel per entry of `alphas` (row by row),
/// each with the colour `rgb` and that entry as its alpha.
pub fn dot_rgba(alphas: &[u8], rgb: (u8, u8, u8)) -> (buf: Vec<u8>)
    ensures
        buf@.len() == 4 * alphas@.len(),
        forall|p: int| 0 <= p < alphas@.len() ==> {
            &&& #[trigger] buf@[4 * p] == rgb.0
            &&& buf@[4 * p + 1] == rgb.1
            &&& buf@[4 * p + 2] == rgb.2
            &&& buf@[4 * p + 3] == alphas@[p]
        },
        forall|i: int| 0 <= i < buf@.len() ==> #[trigger] buf@[i] == dot_byte(alphas@, rgb, i),
{
    let mut buf: Vec<u8> = Vec::new();
    let mut p: usize = 0;
    while p < alphas.len()
        invariant
            p <= alphas@.len(),
            buf@.len() == 4 * p,
            forall|i: int| 0 <= i < buf@.len() ==> #[trigger] buf@[i] == dot_byte(alphas@, rgb, i),
        decreases alphas@.len() - p,
    {
        let ghost base: int = 4 * p;
        buf.push(rgb.0);
        buf.push(rgb.1);
        buf.push(rgb.2);
        buf.push(alphas[p]);
        assert forall|i: int| 0 <= i < buf@.len() implies #[trigger] buf@[i] == dot_byte(alphas@, rgb, i) by {
            if i >= base {
                assert(i / 4 == p);
                assert(i % 4 == i - base);
            }
        }
        p = p + 1;
    }
    assert forall|p: int| 0 <= p < alphas@.len() implies {
        &&& #[trigger] buf@[4 * p] == rgb.0
        &&& buf@[4 * p + 1] == rgb.1
        &&& buf@[4 * p + 2] == rgb.2
        &&& buf@[4 * p + 3] == alphas@[p]
    } by {
        assert(buf@[4 * p] == dot_byte(alphas@, rgb, 4 * p));
        assert(buf@[4 * p + 1] == dot_byte(alphas@, rgb, 4 * p + 1));
        assert(buf@[4 * p + 2] == dot_byte(alphas@, rgb, 4 * p + 2));
        assert(buf@[4 * p + 3] == dot_byte(alphas@, rgb, 4 * p + 3));
    }
    buf
}

/// The tray icon for a state: the dot laid out from `alphas` in the state's
/// colour, the same colour the float window uses for the state.
pub fn icon_rgba(state: &str, alphas: &[u8]) -> (buf: Vec<u8>)
    ensures
        buf@.len() == 4 * alphas@.len(),
        forall|i: int| 0 <= i < buf@.len() ==> #[trigger] buf@[i] == dot_byte(alphas@, color_spec(state@), i),
{
    dot_rgba(alphas, color_of(state))
}

} // verus!
