//! The screen-shake effect's motion: how far the screen image is moved on
//! each frame, and when it is reset. The host blits and redraws.
use vstd::prelude::*;

verus! {

/// Length of the effect, in seconds.
pub const SHAKE_DURATION: i32 = 8;

/// Largest random displacement is ten times this, in pixels.
pub const SHAKE_INTENSITY: i32 = 6;

/// Frames per 20 milliseconds.
pub const SHAKE_SPEED: i32 = 2;

/// Relies on rand's thread_rng and Rng::gen_range over `0..bound`: a value
/// in that range (the range is not empty).
#[verifier::external_body]
fn random_below(bound: i32) -> (r: i32)
    requires
        bound > 0,
    ensures
        0 <= r < bound,
{
    rand::Rng::gen_range(&mut rand::thread_rng(), 0..bound)
}

/// Number of frames the effect runs: its duration at one frame per
/// `frame_delay_ms`.
pub fn shake_iterations() -> (r: i32)
    ensures
        r == 800,
{
    1000 / (20 / SHAKE_SPEED) * SHAKE_DURATION
}

/// Pause between frames, in milliseconds.
pub fn frame_delay_ms() -> (r: u64)
    ensures
        r == 10,
{
    (20 / SHAKE_SPEED) as u64
}

pub open spec fn abs(x: int) -> int {
    if x < 0 { -x } else { x }
}

/// Beyond this cumulative displacement an axis is moved back to zero.
pub open spec fn drift_limit() -> int {
    SHAKE_INTENSITY * 20
}

/// The displacement of one axis for a frame: back to the origin when the
/// axis has drifted too far, else the random draw.
pub open spec fn axis_move(far: int, draw: int) -> int {
    if abs(far) > drift_limit() { -far } else { draw }
}

/// Whether a random draw lies in the range the effect uses.
pub open spec fn valid_draw(d: int) -> bool {
    -SHAKE_INTENSITY * 10 <= d < SHAKE_INTENSITY * 10
}

/// One frame: the offsets to blit at, and whether the screen is redrawn
/// first because an axis was moved back.
#[derive(Clone, Copy, Debug, PartialEq, Eq, Structural)]
pub struct ShakeFrame {
    pub dx: i32,
    pub dy: i32,
    pub reset_x: bool,
    pub reset_y: bool,
}

/// The cumulative displacement of the screen image.
#[derive(Clone, Copy, Debug, PartialEq, Eq, Structural)]
pub struct ShakeTracker {
    pub farx: i32,
    pub fary: i32,
}

impl ShakeTracker {
    /// The displacement stays within the drift limit plus one draw.
    pub open spec fn wf(self) -> bool {
        abs(self.farx as int) <= drift_limit() + SHAKE_INTENSITY * 10
            && abs(self.fary as int) <= drift_limit() + SHAKE_INTENSITY * 10
    }

    pub fn new() -> (r: ShakeTracker)
        ensures
            r.farx == 0,
            r.fary == 0,
            r.wf(),
    {
        ShakeTracker { farx: 0, fary: 0 }
    }

    /// Advances by one frame with the random draws `draw_x` and `draw_y`.
    pub fn next_frame(&mut self, draw_x: i32, draw_y: i32) -> (r: ShakeFrame)
        requires
            old(self).wf(),
            valid_draw(draw_x as int),
            valid_draw(draw_y as int),
        ensures
            final(self).wf(),
            r.reset_x == (abs(old(self).farx as int) > drift_limit()),
            r.reset_y == (abs(old(self).fary as int) > drift_limit()),
            r.dx == axis_move(old(self).farx as int, draw_x as int),
            r.dy == axis_move(old(self).fary as int, draw_y as int),
            final(self).farx == old(self).farx + r.dx,
            final(self).fary == old(self).fary + r.dy,
    {
        let limit = SHAKE_INTENSITY * 20;
        let reset_x = self.farx > limit || self.farx < -limit;
        let reset_y = self.fary > limit || self.fary < -limit;
        let dx = if reset_x { -self.farx } else { draw_x };
        let dy = if reset_y { -self.fary } else { draw_y };
        self.farx = self.farx + dx;
        self.fary = self.fary + dy;
        ShakeFrame { dx, dy, reset_x, reset_y }
    }

    /// Advances by one frame with fresh random draws.
    pub fn random_frame(&mut self) -> (r: ShakeFrame)
        requires
            old(self).wf(),
        ensures
            final(self).wf(),
            r.reset_x == (abs(old(self).farx as int) > drift_limit()),
            r.reset_y == (abs(old(self).fary as int) > drift_limit()),
            r.reset_x ==> r.dx == -old(self).farx,
            !r.reset_x ==> valid_draw(r.dx as int),
            r.reset_y ==> r.dy == -old(self).fary,
            !r.reset_y ==> valid_draw(r.dy as int),
            final(self).farx == old(self).farx + r.dx,
            final(self).fary == old(self).fary + r.dy,
    {
        let draw_x = random_below(SHAKE_INTENSITY * 20) - SHAKE_INTENSITY * 10;
        let draw_y = random_below(SHAKE_INTENSITY * 20) - SHAKE_INTENSITY * 10;
        self.next_frame(draw_x, draw_y)
    }
}

} // verus!
