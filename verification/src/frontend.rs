use vstd::prelude::*;

use crate::cheat::{spec_parse, GameGenieCode, GameGenieCodeError};
use crate::controller::ControllerButtons;
use crate::frame::{HEIGHT, WIDTH};

verus! {

/// How much of the picture's border a host hides.
#[derive(Debug, Clone, Copy, PartialEq, Eq, Structural)]
pub enum CropOverscan {
    Disabled,
    Vertical,
    All,
}

/// The visible rectangle of a frame.
#[derive(Debug, Clone, Copy, PartialEq, Eq, Structural)]
pub struct Viewport {
    pub left: usize,
    pub top: usize,
    pub width: usize,
    pub height: usize,
}

/// Rows (and columns) hidden at each edge when cropping.
pub const OVERSCAN: usize = 8;

impl CropOverscan {
    /// The whole frame, without the top and bottom 8 rows, or without an
    /// 8-pixel border on every side.
    pub fn viewport(self) -> (v: Viewport)
        ensures
            v == (match self {
                CropOverscan::Disabled => Viewport { left: 0, top: 0, width: 256, height: 240 },
                CropOverscan::Vertical => Viewport { left: 0, top: 8, width: 256, height: 224 },
                CropOverscan::All => Viewport { left: 8, top: 8, width: 240, height: 224 },
            }),
            v.left + v.width <= 256,
            v.top + v.height <= 240,
    {
        match self {
            CropOverscan::Disabled => Viewport { left: 0, top: 0, width: WIDTH, height: HEIGHT },
            CropOverscan::Vertical => Viewport {
                left: 0,
                top: OVERSCAN,
                width: WIDTH,
                height: HEIGHT - OVERSCAN * 2,
            },
            CropOverscan::All => Viewport {
                left: OVERSCAN,
                top: OVERSCAN,
                width: WIDTH - OVERSCAN * 2,
                height: HEIGHT - OVERSCAN * 2,
            },
        }
    }
}

/// The buttons a host reads from a joypad or keyboard.
#[derive(Debug, Clone, Copy, PartialEq, Eq, Structural)]
pub struct PadState {
    pub a: bool,
    pub b: bool,
    pub select: bool,
    pub start: bool,
    pub up: bool,
    pub down: bool,
    pub left: bool,
    pub right: bool,
}

pub open spec fn bit(pressed: bool, mask: u8) -> u8 {
    if pressed {
        mask
    } else {
        0
    }
}

impl PadState {
    /// The controller state for the pad. Unless opposite directions are
    /// allowed, holding up with down (or left with right) presses neither.
    pub fn buttons(self, allow_opposite_directions: bool) -> (buttons: ControllerButtons)
        ensures
            buttons.0 == bit(self.a, 0x01) | bit(self.b, 0x02) | bit(self.select, 0x04) | bit(
                self.start,
                0x08,
            ) | bit(self.up && (allow_opposite_directions || !self.down), 0x10) | bit(
                self.down && (allow_opposite_directions || !self.up),
                0x20,
            ) | bit(self.left && (allow_opposite_directions || !self.right), 0x40) | bit(
                self.right && (allow_opposite_directions || !self.left),
                0x80,
            ),
    {
        let allow = allow_opposite_directions;
        let a: u8 = if self.a { 0x01 } else { 0 };
        let b: u8 = if self.b { 0x02 } else { 0 };
        let select: u8 = if self.select { 0x04 } else { 0 };
        let start: u8 = if self.start { 0x08 } else { 0 };
        let up: u8 = if self.up && (allow || !self.down) { 0x10 } else { 0 };
        let down: u8 = if self.down && (allow || !self.up) { 0x20 } else { 0 };
        let left: u8 = if self.left && (allow || !self.right) { 0x40 } else { 0 };
        let right: u8 = if self.right && (allow || !self.left) { 0x80 } else { 0 };
        ControllerButtons::from_bits(a | b | select | start | up | down | left | right)
    }
}

/// Parsing a list of codes: all of them, or the error of the first that fails.
pub open spec fn parse_list(codes: Seq<Seq<char>>) -> Result<Seq<GameGenieCode>, GameGenieCodeError>
    decreases codes.len(),
{
    if codes.len() == 0 {
        Ok(seq![])
    } else {
        match parse_list(codes.drop_last()) {
            Err(e) => Err(e),
            Ok(parsed) => match spec_parse(codes.last()) {
                Ok(code) => Ok(parsed.push(code)),
                Err(e) => Err(e),
            },
        }
    }
}

/// Once a prefix of the list fails, the whole list fails with the same error.
proof fn lemma_parse_list_error(codes: Seq<Seq<char>>, k: int)
    requires
        0 <= k <= codes.len(),
        parse_list(codes.take(k)) is Err,
    ensures
        parse_list(codes) == parse_list(codes.take(k)),
    decreases codes.len() - k,
{
    if k < codes.len() {
        assert(codes.take(k + 1).drop_last() =~= codes.take(k));
        lemma_parse_list_error(codes, k + 1);
    } else {
        assert(codes.take(k) =~= codes);
    }
}

pub open spec fn texts(codes: Seq<String>) -> Seq<Seq<char>> {
    codes.map_values(|c: String| c@)
}

/// Parse every Game Genie code of the list, in order; the first invalid one
/// fails the whole list.
pub fn parse_game_genie_codes(codes: Vec<String>) -> (r: Result<Vec<GameGenieCode>, GameGenieCodeError>)
    ensures
        match r {
            Ok(parsed) => parse_list(texts(codes@)) == Ok::<Seq<GameGenieCode>, GameGenieCodeError>(parsed@),
            Err(e) => parse_list(texts(codes@)) == Err::<Seq<GameGenieCode>, GameGenieCodeError>(e),
        },
{
    let mut parsed: Vec<GameGenieCode> = Vec::new();
    let mut i: usize = 0;
    assert(texts(codes@).take(0) =~= Seq::<Seq<char>>::empty());
    while i < codes.len()
        invariant
            0 <= i <= codes@.len(),
            parse_list(texts(codes@).take(i as int)) == Ok::<Seq<GameGenieCode>, GameGenieCodeError>(parsed@),
        decreases codes@.len() - i,
    {
        let ghost all = texts(codes@);
        assert(all.take(i + 1).drop_last() =~= all.take(i as int));
        assert(all.take(i + 1).last() == codes@[i as int]@);
        match GameGenieCode::parse(codes[i].as_str()) {
            Ok(code) => {
                parsed.push(code);
                i = i + 1;
            },
            Err(e) => {
                proof {
                    lemma_parse_list_error(all, i + 1);
                }
                return Err(e);
            },
        }
    }
    assert(texts(codes@).take(codes@.len() as int) =~= texts(codes@));
    Ok(parsed)
}

/// Byte `k` of pixel `p` in a row-major buffer of `stride`-byte pixels.
pub open spec fn channel(bytes: Seq<u8>, stride: int, p: int, k: int) -> u8 {
    bytes[stride * p + k]
}

/// Row-major RGB bytes as RGBA bytes with every alpha at `0xFF`.
pub fn rgb_to_rgba(rgb: &[u8]) -> (rgba: Vec<u8>)
    requires
        rgb@.len() / 3 * 4 <= usize::MAX,
    ensures
        rgba@.len() == rgb@.len() / 3 * 4,
        forall|p: int, k: int|
            0 <= p < rgb@.len() / 3 && 0 <= k < 3 ==> #[trigger] channel(rgba@, 4, p, k) == channel(
                rgb@,
                3,
                p,
                k,
            ),
        forall|p: int| 0 <= p < rgb@.len() / 3 ==> #[trigger] channel(rgba@, 4, p, 3) == 0xFF,
{
    let pixels = rgb.len() / 3;
    let mut rgba: Vec<u8> = Vec::new();
    let mut p: usize = 0;
    while p < pixels
        invariant
            pixels == rgb@.len() / 3,
            pixels * 4 <= usize::MAX,
            p <= pixels,
            rgba@.len() == 4 * p,
            forall|q: int, k: int|
                0 <= q < p && 0 <= k < 3 ==> #[trigger] channel(rgba@, 4, q, k) == channel(
                    rgb@,
                    3,
                    q,
                    k,
                ),
            forall|q: int| 0 <= q < p ==> #[trigger] channel(rgba@, 4, q, 3) == 0xFF,
        decreases pixels - p,
    {
        assert(3 * p + 2 < rgb@.len()) by (nonlinear_arith)
            requires
                p < pixels,
                pixels == rgb@.len() / 3,
        ;
        let ghost before = rgba@;
        rgba.push(rgb[3 * p]);
        rgba.push(rgb[3 * p + 1]);
        rgba.push(rgb[3 * p + 2]);
        rgba.push(0xFF);
        proof {
            assert forall|q: int, k: int| 0 <= q < p + 1 && 0 <= k < 3 implies #[trigger] channel(
                rgba@,
                4,
                q,
                k,
            ) == channel(rgb@, 3, q, k) by {
                if q < p {
                    assert(channel(before, 4, q, k) == channel(rgb@, 3, q, k));
                }
            }
            assert forall|q: int| 0 <= q < p + 1 implies #[trigger] channel(rgba@, 4, q, 3)
                == 0xFF by {
                if q < p {
                    assert(channel(before, 4, q, 3) == 0xFF);
                }
            }
        }
        p = p + 1;
    }
    rgba
}

/// Row-major RGB bytes as one `0x00RRGGBB` word per pixel.
pub fn rgb_to_xrgb(rgb: &[u8]) -> (xrgb: Vec<u32>)
    ensures
        xrgb@.len() == rgb@.len() / 3,
        forall|p: int|
            0 <= p < rgb@.len() / 3 ==> xrgb@[p] == rgb@[3 * p] * 0x10000 + rgb@[3 * p + 1] * 0x100
                + rgb@[3 * p + 2],
{
    let pixels = rgb.len() / 3;
    let mut xrgb: Vec<u32> = Vec::new();
    let mut p: usize = 0;
    while p < pixels
        invariant
            pixels == rgb@.len() / 3,
            rgb@.len() <= usize::MAX,
            p <= pixels,
            xrgb@.len() == p,
            forall|q: int|
                0 <= q < p ==> xrgb@[q] == rgb@[3 * q] * 0x10000 + rgb@[3 * q + 1] * 0x100 + rgb@[3
                    * q + 2],
        decreases pixels - p,
    {
        assert(3 * p + 2 < rgb@.len()) by (nonlinear_arith)
            requires
                p < pixels,
                pixels == rgb@.len() / 3,
        ;
        let r = rgb[3 * p] as u32;
        let g = rgb[3 * p + 1] as u32;
        let b = rgb[3 * p + 2] as u32;
        xrgb.push(r * 0x10000 + g * 0x100 + b);
        p = p + 1;
    }
    xrgb
}

} // verus!
