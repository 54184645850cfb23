//! Counting single, double and triple clicks.

use vstd::prelude::*;

verus! {

/// `std::time::Instant`: a moment on a clock that never runs backward. The
/// library sees nothing inside it.
#[verifier::external_type_specification]
#[verifier::external_body]
pub struct ExInstant(std::time::Instant);

/// The longest pause, in milliseconds, between two clicks of one series.
pub const MULTI_CLICK_MILLIS: u128 = 500;

/// `std::time::Instant::now`: the present moment. Nothing is known of it.
#[verifier::external_body]
fn clock_now() -> (now: std::time::Instant) {
    std::time::Instant::now()
}

/// `std::time::Instant::saturating_duration_since` and
/// `Duration::as_millis`: the whole milliseconds from `earlier` to `later`,
/// zero if `earlier` is the later one. Nothing is claimed of the number.
#[verifier::external_body]
fn millis_between(later: &std::time::Instant, earlier: &std::time::Instant) -> (millis: u128) {
    later.saturating_duration_since(*earlier).as_millis()
}

/// Keeps what is needed to tell single, double and triple clicks apart
pub struct InputHandler {
    /// Tracks double/triple click timing for word/line selection
    pub last_click_time: std::time::Instant,
    pub last_click_pos: (u16, u16),
    pub click_count: u8,
}

/// The count of a click that follows a click counted `count`: it starts a
/// new series at 1 if it comes late or elsewhere, and else goes on from 1
/// to 2 to 3 and back to 1.
pub open spec fn spec_click_count_after(count: u8, same_position: bool, elapsed_millis: u128) -> u8 {
    if elapsed_millis > MULTI_CLICK_MILLIS || !same_position {
        1
    } else {
        ((count % 3) + 1) as u8
    }
}

/// The count of a click at a position, `elapsed_millis` after the previous
/// click, which was counted `count` and was or was not at the same position.
pub fn click_count_after(count: u8, same_position: bool, elapsed_millis: u128) -> (next: u8)
    ensures
        next == spec_click_count_after(count, same_position, elapsed_millis),
        1 <= next <= 3,
{
    if elapsed_millis > MULTI_CLICK_MILLIS || !same_position {
        1
    } else {
        (count % 3) + 1
    }
}

impl InputHandler {
    /// A handler that has seen no click yet.
    pub fn new() -> (h: InputHandler)
        ensures
            h.last_click_pos == (0u16, 0u16),
            h.click_count == 0,
    {
        InputHandler { last_click_time: clock_now(), last_click_pos: (0, 0), click_count: 0 }
    }

    /// Records a click at `(x, y)` that came at the moment `now`,
    /// `elapsed_millis` after the click before it, and returns its count
    /// (1 = single, 2 = double, 3 = triple). The handler keeps the moment,
    /// the position and the count for the click that follows.
    pub fn record_click_at(
        &mut self,
        x: u16,
        y: u16,
        now: std::time::Instant,
        elapsed_millis: u128,
    ) -> (count: u8)
        ensures
            count == spec_click_count_after(
                old(self).click_count,
                old(self).last_click_pos == (x, y),
                elapsed_millis,
            ),
            *final(self) == (InputHandler {
                last_click_time: now,
                last_click_pos: (x, y),
                click_count: count,
            }),
    {
        let same = self.last_click_pos.0 == x && self.last_click_pos.1 == y;
        let count = click_count_after(self.click_count, same, elapsed_millis);
        self.click_count = count;
        self.last_click_time = now;
        self.last_click_pos = (x, y);
        count
    }

    /// Record a click and return the click count (1 = single, 2 = double, 3 = triple)
    ///
    /// The click is recorded at the present moment. The count depends on
    /// the time that has passed since the previous click: whatever it was,
    /// the count is the one `click_count_after` gives for some elapsed
    /// time.
    pub fn record_click(&mut self, x: u16, y: u16) -> (count: u8)
        ensures
            final(self).click_count == count,
            final(self).last_click_pos == (x, y),
            ({
                let same = old(self).last_click_pos == (x, y);
                exists|elapsed: u128|
                    count == #[trigger] spec_click_count_after(
                        old(self).click_count,
                        same,
                        elapsed,
                    )
            }),
            old(self).last_click_pos != (x, y) ==> count == 1,
            1 <= count <= 3,
    {
        let now = clock_now();
        let elapsed = millis_between(&now, &self.last_click_time);
        self.record_click_at(x, y, now, elapsed)
    }
}

impl Default for InputHandler {
    fn default() -> (h: InputHandler)
        ensures
            h.last_click_pos == (0u16, 0u16),
            h.click_count == 0,
    {
        InputHandler::new()
    }
}

} // verus!
