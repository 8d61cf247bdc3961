//! The panel session: the in-memory framebuffer of the 5.83-inch e-paper
//! panel together with the strict lifecycle the physical panel imposes.
//!
//! The framebuffer is the display buffer of the panel-driver crate, held
//! opaquely; painting delegates glyph rasterization to the text-rendering
//! crate with fixed metrics (10x20 monospace, white glyphs on black, top
//! baseline), with no wrapping and no clipping beyond what the bitmap
//! operation itself does. The lifecycle is
//! `Uninitialized -> Initialized -> (Cleared <-> Painted) -> Updated ->
//! Displayed -> Cleared ...`; the bus operations themselves (init,
//! frame transfer, display refresh) run outside this library, which hands
//! out the frame bytes to transfer and enforces the order.

use vstd::prelude::*;
use vstd::string::StrSliceExecFns;
use embedded_graphics::Drawable;
use embedded_graphics::draw_target::DrawTarget;
use embedded_graphics::geometry::Point;
use embedded_graphics::mono_font::MonoTextStyleBuilder;
use embedded_graphics::text::Baseline;
use embedded_graphics::text::Text;
use embedded_graphics::text::TextStyleBuilder;
use epd_waveshare::color::Color;
use epd_waveshare::epd5in83_v2::Display5in83;

verus! {

/// Bytes of the monochrome framebuffer: 648 / 8 bytes per line, 480 lines.
pub const FRAME_BYTES: usize = 81 * 480;

/// The panel's in-memory monochrome framebuffer. It wraps the panel-driver
/// crate's display buffer for the 5.83-inch panel, which this library never
/// rotates, so its abstract content is the byte sequence alone.
#[verifier::external_body]
pub struct Frame {
    inner: Display5in83,
}

/// What the framebuffer holds, as its raw bytes, one bit per pixel.
pub uninterp spec fn frame_of(f: Frame) -> Seq<u8>;

/// What the text-rendering crate's `Text::draw` leaves in the framebuffer:
/// a function of the old bytes, the text and the origin alone, since the
/// font, the style and the rotation are fixed.
pub uninterp spec fn painted(frame: Seq<u8>, text: Seq<char>, x: int, y: int) -> Seq<u8>;

/// A solid-white frame: every pixel bit set.
pub open spec fn white_frame() -> Seq<u8> {
    Seq::new(FRAME_BYTES as nat, |i: int| 0xFFu8)
}

/// The origins and text sizes a paint admits: generous for any layout on
/// the 648x480 panel, yet far from the ends of the `i32` range, where the
/// text-rendering crate's unchecked origin arithmetic (one line height per
/// line, one glyph width per character) would overflow.
pub open spec fn paint_args_ok(text: Seq<char>, x: int, y: int) -> bool {
    -100000 <= x <= 100000 && -100000 <= y <= 100000 && text.len() <= 100000
}

/// Whether a paint of `text` at `(x, y)` is within the admitted origins
/// and text sizes, for callers whose text arrives at run time.
pub fn paint_args_within_limits(text: &str, x: i32, y: i32) -> (b: bool)
    ensures
        b == paint_args_ok(text@, x as int, y as int),
{
    -100000 <= x && x <= 100000 && -100000 <= y && y <= 100000 && text.unicode_len() <= 100000
}

impl Frame {
    /// Relies on `Display::default` of the panel-driver crate: the buffer
    /// starts as `FRAME_BYTES` zero bytes, at the default (identity)
    /// rotation.
    #[verifier::external_body]
    pub fn new() -> (f: Frame)
        ensures
            frame_of(f).len() == FRAME_BYTES,
            forall|i: int| 0 <= i < frame_of(f).len() ==> frame_of(f)[i] == 0u8,
    {
        Frame { inner: Display5in83::default() }
    }

    /// Relies on `DrawTarget::clear` with the white color: at the fixed
    /// rotation it sets every pixel bit of the buffer, so every byte
    /// becomes 0xFF; the buffer keeps its fixed size.
    #[verifier::external_body]
    pub fn clear_white(&mut self)
        ensures
            frame_of(*final(self)) == white_frame(),
    {
        let _ = self.inner.clear(Color::White);
    }

    /// Relies on `Display::buffer` of the panel-driver crate: the returned
    /// slice is the framebuffer's bytes.
    #[verifier::external_body]
    pub fn bytes(&self) -> (r: Vec<u8>)
        ensures
            r@ == frame_of(*self),
    {
        self.inner.buffer().to_vec()
    }
}

/// Paints `text` with the top-left of its first glyph cell at `(x, y)`:
/// fixed 10x20 monospace glyphs, white on black, top baseline, no wrapping
/// and no clipping of its own. Relies on `Text::draw` of the
/// text-rendering crate: with font, style and rotation fixed, the new
/// buffer depends on the old buffer, the text and the origin alone, and
/// the buffer keeps its size. The call advances the origin by unchecked
/// `i32` additions — a line height per line, a glyph width per character —
/// so origins and texts near the `i32` range are left out.
#[verifier::external_body]
pub fn draw_text(display: &mut Frame, text: &str, x: i32, y: i32)
    requires
        paint_args_ok(text@, x as int, y as int),
    ensures
        frame_of(*final(display)) == painted(frame_of(*old(display)), text@, x as int, y as int),
        frame_of(*final(display)).len() == frame_of(*old(display)).len(),
{
    let style = MonoTextStyleBuilder::new()
        .font(&embedded_graphics::mono_font::ascii::FONT_10X20)
        .text_color(Color::White)
        .background_color(Color::Black)
        .build();

    let text_style = TextStyleBuilder::new().baseline(Baseline::Top).build();

    let _ = Text::with_text_style(text, Point::new(x, y), style, text_style).draw(
        &mut display.inner,
    );
}

/// The lifecycle states of the panel session.
#[derive(Clone, Copy, Debug, PartialEq, Eq, Structural)]
pub enum PanelState {
    Uninitialized,
    Initialized,
    Cleared,
    Painted,
    Updated,
    Displayed,
}

/// The operations of one render cycle, as steps of the lifecycle.
#[derive(Clone, Copy, Debug, PartialEq, Eq, Structural)]
pub enum PanelOp {
    Init,
    Clear,
    Paint,
    UpdateFrame,
    DisplayFrame,
}

/// The panel lifecycle: the state each operation leads to, and nothing
/// where the operation is illegal in the given state.
pub open spec fn panel_next(s: PanelState, op: PanelOp) -> Option<PanelState> {
    match op {
        PanelOp::Init => if s == PanelState::Uninitialized {
            Some(PanelState::Initialized)
        } else {
            None
        },
        PanelOp::Clear => if s == PanelState::Initialized || s == PanelState::Cleared || s
            == PanelState::Painted || s == PanelState::Displayed {
            Some(PanelState::Cleared)
        } else {
            None
        },
        PanelOp::Paint => if s == PanelState::Cleared || s == PanelState::Painted {
            Some(PanelState::Painted)
        } else {
            None
        },
        PanelOp::UpdateFrame => if s == PanelState::Cleared || s == PanelState::Painted {
            Some(PanelState::Updated)
        } else {
            None
        },
        PanelOp::DisplayFrame => if s == PanelState::Updated {
            Some(PanelState::Displayed)
        } else {
            None
        },
    }
}

/// The state a run of operations ends in, and nothing where some step is
/// illegal.
pub open spec fn run_panel(s: PanelState, ops: Seq<PanelOp>) -> Option<PanelState>
    decreases ops.len(),
{
    if ops.len() == 0 {
        Some(s)
    } else {
        match panel_next(s, ops.first()) {
            Some(s2) => run_panel(s2, ops.drop_first()),
            None => None,
        }
    }
}

/// Holds when the operation at `i`, where it is `DisplayFrame`, directly
/// follows an `UpdateFrame`, or stands first while the run already begins
/// in the `Updated` state.
pub open spec fn display_follows_update(s: PanelState, ops: Seq<PanelOp>, i: int) -> bool {
    ops[i] == PanelOp::DisplayFrame ==> if i == 0 {
        s == PanelState::Updated
    } else {
        ops[i - 1] == PanelOp::UpdateFrame
    }
}

/// Holds when the operation at `i`, where it is `Init`, stands first in a
/// run that begins uninitialized.
pub open spec fn init_only_first(s: PanelState, ops: Seq<PanelOp>, i: int) -> bool {
    ops[i] == PanelOp::Init ==> i == 0 && s == PanelState::Uninitialized
}

proof fn lemma_display_preceded(s: PanelState, ops: Seq<PanelOp>)
    requires
        run_panel(s, ops) is Some,
    ensures
        forall|i: int| 0 <= i < ops.len() ==> #[trigger] display_follows_update(s, ops, i),
    decreases ops.len(),
{
    if ops.len() > 0 {
        let s2 = panel_next(s, ops.first()).unwrap();
        let rest = ops.drop_first();
        lemma_display_preceded(s2, rest);
        assert forall|i: int| 0 <= i < ops.len() implies #[trigger] display_follows_update(
            s,
            ops,
            i,
        ) by {
            if i == 0 {
                assert(ops[0] == PanelOp::DisplayFrame ==> panel_next(s, ops[0]) is Some);
            } else {
                assert(display_follows_update(s2, rest, i - 1));
                assert(rest[i - 1] == ops[i]);
                if i == 1 && ops[1] == PanelOp::DisplayFrame {
                    assert(s2 == PanelState::Updated);
                    assert(panel_next(s, ops[0]) == Some(PanelState::Updated));
                }
                if i > 1 {
                    assert(rest[i - 2] == ops[i - 1]);
                }
            }
        }
    }
}

proof fn lemma_no_return_to_uninitialized(s: PanelState, op: PanelOp)
    ensures
        panel_next(s, op) != Some(PanelState::Uninitialized),
{
}

proof fn lemma_no_init_later(s: PanelState, ops: Seq<PanelOp>)
    requires
        run_panel(s, ops) is Some,
    ensures
        forall|i: int| 0 <= i < ops.len() ==> #[trigger] init_only_first(s, ops, i),
    decreases ops.len(),
{
    if ops.len() > 0 {
        let s2 = panel_next(s, ops.first()).unwrap();
        let rest = ops.drop_first();
        lemma_no_init_later(s2, rest);
        assert forall|i: int| 0 <= i < ops.len() implies #[trigger] init_only_first(
            s,
            ops,
            i,
        ) by {
            if i == 0 {
                assert(ops[0] == PanelOp::Init ==> panel_next(s, ops[0]) is Some);
            } else {
                assert(init_only_first(s2, rest, i - 1));
                assert(rest[i - 1] == ops[i]);
                lemma_no_return_to_uninitialized(s, ops.first());
            }
        }
    }
}

/// Law: along any legal run of operations from the uninitialized state,
/// the panel is initialized first and exactly once — every nonempty run
/// begins with `Init` and never repeats it, so no `UpdateFrame` comes
/// before initialization — and `DisplayFrame` is taken only immediately
/// after the `UpdateFrame` of the same render cycle.
pub proof fn lemma_panel_lifecycle(ops: Seq<PanelOp>)
    requires
        run_panel(PanelState::Uninitialized, ops) is Some,
    ensures
        ops.len() > 0 ==> ops[0] == PanelOp::Init,
        forall|i: int| 0 <= i < ops.len() ==> #[trigger] init_only_first(
            PanelState::Uninitialized,
            ops,
            i,
        ),
        forall|i: int| 0 <= i < ops.len() ==> #[trigger] display_follows_update(
            PanelState::Uninitialized,
            ops,
            i,
        ),
{
    if ops.len() > 0 {
        assert(panel_next(PanelState::Uninitialized, ops.first()) is Some);
        lemma_display_preceded(PanelState::Uninitialized, ops);
        lemma_no_init_later(PanelState::Uninitialized, ops);
    }
}

/// The panel session: the framebuffer together with the lifecycle state,
/// which every operation advances along `panel_next` and nothing else.
pub struct PanelSession {
    frame: Frame,
    state: PanelState,
}

impl PanelSession {
    /// The session's place in the panel lifecycle.
    pub closed spec fn lifecycle(self) -> PanelState {
        self.state
    }

    /// The framebuffer's bytes.
    pub closed spec fn frame_view(self) -> Seq<u8> {
        frame_of(self.frame)
    }

    /// A fresh session: panel not yet initialized, framebuffer all zero.
    pub fn new() -> (s: PanelSession)
        ensures
            s.lifecycle() == PanelState::Uninitialized,
            s.frame_view().len() == FRAME_BYTES,
            forall|i: int| 0 <= i < s.frame_view().len() ==> s.frame_view()[i] == 0u8,
    {
        PanelSession { frame: Frame::new(), state: PanelState::Uninitialized }
    }

    /// The session's place in the lifecycle, for callers outside verified
    /// code that must test an operation's legality before asking for it.
    pub fn current_state(&self) -> (s: PanelState)
        ensures
            s == self.lifecycle(),
    {
        self.state
    }

    /// The framebuffer's bytes, for observation; the lifecycle is not
    /// advanced.
    pub fn frame_bytes(&self) -> (r: Vec<u8>)
        ensures
            r@ == self.frame_view(),
    {
        self.frame.bytes()
    }

    /// Records that the panel's reset/handshake sequence completed; legal
    /// exactly once, before anything else.
    pub fn init(&mut self)
        requires
            panel_next(old(self).lifecycle(), PanelOp::Init) is Some,
        ensures
            panel_next(old(self).lifecycle(), PanelOp::Init) == Some(final(self).lifecycle()),
            final(self).lifecycle() == PanelState::Initialized,
            final(self).frame_view() == old(self).frame_view(),
    {
        self.state = PanelState::Initialized;
    }

    /// Resets the in-memory framebuffer to solid white; the physical panel
    /// is untouched.
    pub fn clear(&mut self)
        requires
            panel_next(old(self).lifecycle(), PanelOp::Clear) is Some,
        ensures
            panel_next(old(self).lifecycle(), PanelOp::Clear) == Some(final(self).lifecycle()),
            final(self).lifecycle() == PanelState::Cleared,
            final(self).frame_view() == white_frame(),
    {
        self.frame.clear_white();
        self.state = PanelState::Cleared;
    }

    /// Paints `text` into the framebuffer at origin `(x, y)`, within the
    /// admitted origins and text sizes; any number of paints may follow a
    /// clear.
    pub fn paint(&mut self, text: &str, x: i32, y: i32)
        requires
            panel_next(old(self).lifecycle(), PanelOp::Paint) is Some,
            paint_args_ok(text@, x as int, y as int),
        ensures
            panel_next(old(self).lifecycle(), PanelOp::Paint) == Some(final(self).lifecycle()),
            final(self).lifecycle() == PanelState::Painted,
            final(self).frame_view() == painted(old(self).frame_view(), text@, x as int, y as int),
    {
        draw_text(&mut self.frame, text, x, y);
        self.state = PanelState::Painted;
    }

    /// Hands out the framebuffer bytes for the bus transfer into the
    /// panel's internal memory; the transfer must complete before the
    /// frame may be displayed.
    pub fn update_frame(&mut self) -> (data: Vec<u8>)
        requires
            panel_next(old(self).lifecycle(), PanelOp::UpdateFrame) is Some,
        ensures
            panel_next(old(self).lifecycle(), PanelOp::UpdateFrame) == Some(
                final(self).lifecycle(),
            ),
            final(self).lifecycle() == PanelState::Updated,
            final(self).frame_view() == old(self).frame_view(),
            data@ == old(self).frame_view(),
    {
        self.state = PanelState::Updated;
        self.frame.bytes()
    }

    /// Records that the transferred frame was committed to the physical
    /// display; legal only right after a frame transfer.
    pub fn display_frame(&mut self)
        requires
            panel_next(old(self).lifecycle(), PanelOp::DisplayFrame) is Some,
        ensures
            panel_next(old(self).lifecycle(), PanelOp::DisplayFrame) == Some(
                final(self).lifecycle(),
            ),
            final(self).lifecycle() == PanelState::Displayed,
            final(self).frame_view() == old(self).frame_view(),
    {
        self.state = PanelState::Displayed;
    }
}

} // verus!
