//! The main control loop's decisions: one idle-poll cycle at a fixed
//! cadence. The caller sleeps `POLL_INTERVAL_MS`, then polls the relay
//! with a `RECV_TIMEOUT_MS` receive window; only an actual message starts
//! a render cycle, never a fixed refresh cadence, since committing a frame
//! to the bistable panel is slow and power-hungry.

use vstd::prelude::*;
use crate::panel::FRAME_BYTES;
use crate::panel::PanelOp;
use crate::panel::PanelSession;
use crate::panel::PanelState;
use crate::panel::paint_args_ok;
use crate::panel::paint_args_within_limits;
use crate::panel::painted;
use crate::panel::panel_next;
use crate::panel::white_frame;
use crate::relay::Relay;

verus! {

/// Milliseconds slept between two polls of the relay.
pub const POLL_INTERVAL_MS: u32 = 3000;

/// Milliseconds the consumer's receive window stays open on each poll.
pub const RECV_TIMEOUT_MS: u32 = 2000;

/// One full render cycle for `text`: clear the framebuffer to white, paint
/// the text at the given origin, hand the frame bytes out for the bus
/// transfer, and record the display commit. Returns the transferred bytes.
pub fn render_message(session: &mut PanelSession, text: &str, x: i32, y: i32) -> (data: Vec<u8>)
    requires
        panel_next(old(session).lifecycle(), PanelOp::Clear) is Some,
        paint_args_ok(text@, x as int, y as int),
    ensures
        final(session).lifecycle() == PanelState::Displayed,
        final(session).frame_view() == painted(white_frame(), text@, x as int, y as int),
        data@ == final(session).frame_view(),
{
    session.clear();
    session.paint(text, x, y);
    let data = session.update_frame();
    session.display_frame();
    data
}

/// One idle-poll cycle: polls the relay once and, only when a message is
/// pending and within the admitted text size, renders it at the top-left
/// origin. On a timeout — no message within the receive window — the panel
/// session is left completely untouched: no clear, no paint, no frame
/// transfer, no display commit. A pending message too large to paint is
/// taken off the relay and dropped, the panel equally untouched.
pub fn poll_cycle(session: &mut PanelSession, relay: &mut Relay) -> (r: Option<Vec<u8>>)
    requires
        panel_next(old(session).lifecycle(), PanelOp::Clear) is Some,
    ensures
        old(relay).messages().len() == 0 ==> r is None
            && *final(session) == *old(session)
            && final(relay).messages() == old(relay).messages(),
        old(relay).messages().len() > 0 ==> final(relay).messages() == old(
            relay,
        ).messages().drop_first(),
        old(relay).messages().len() > 0 && paint_args_ok(old(relay).messages().first(), 0, 0)
            ==> (r matches Some(data)
            && final(session).lifecycle() == PanelState::Displayed
            && final(session).frame_view() == painted(
                white_frame(), old(relay).messages().first(), 0, 0)
            && data@ == final(session).frame_view()),
        old(relay).messages().len() > 0 && !paint_args_ok(old(relay).messages().first(), 0, 0)
            ==> r is None && *final(session) == *old(session),
{
    match relay.try_recv() {
        Some(message) => {
            if paint_args_within_limits(message.as_str(), 0, 0) {
                Some(render_message(session, message.as_str(), 0, 0))
            } else {
                None
            }
        },
        None => None,
    }
}

} // verus!
