use vstd::prelude::*;
use std::time::{Duration, Instant};

verus! {

/// `std::time::Instant`, a reading of the monotonic clock.
#[verifier::external_type_specification]
#[verifier::external_body]
pub struct ExInstant(std::time::Instant);

/// `Instant::now`. The clock's reading is not known here.
#[verifier::external_body]
fn clock_now() -> (r: Instant) {
    Instant::now()
}

/// `Instant::elapsed`: time since `t`. Depends on the clock, so nothing is
/// stated of it.
#[verifier::external_body]
fn elapsed_since(t: &Instant) -> (r: Duration) {
    t.elapsed()
}

/// `Duration::as_nanos`: the whole length of `d` in nanoseconds. `Duration`
/// is opaque here, so nothing is stated of the number.
#[verifier::external_body]
fn duration_nanos(d: &Duration) -> (r: u128) {
    d.as_nanos()
}

/// Whether a banner shown for `elapsed_nanos` has outlived a time to live
/// of `ttl_nanos`: only once strictly more time has passed.
pub fn expired_after(elapsed_nanos: u128, ttl_nanos: u128) -> (r: bool)
    ensures
        r == (elapsed_nanos > ttl_nanos),
{
    elapsed_nanos > ttl_nanos
}

/// Kind of a transient message.
#[derive(Debug, Clone, Copy, PartialEq, Eq, Structural)]
pub enum BannerVariant {
    Error,
    Success,
}

/// A transient message at the top of the screen, with the time it appeared.
#[derive(Debug)]
pub struct Banner {
    pub message: String,
    pub variant: BannerVariant,
    pub created_at: Instant,
}

impl Banner {
    /// An error message shown from now on.
    pub fn error(message: &str) -> (b: Self)
        ensures
            b.message@ == message@,
            b.variant == BannerVariant::Error,
    {
        Banner { message: String::from_str(message), variant: BannerVariant::Error, created_at: clock_now() }
    }

    /// A success message shown from now on.
    pub fn success(message: &str) -> (b: Self)
        ensures
            b.message@ == message@,
            b.variant == BannerVariant::Success,
    {
        Banner { message: String::from_str(message), variant: BannerVariant::Success, created_at: clock_now() }
    }

    /// Where the banner box goes in a row `area_width` cells wide, for a
    /// message of `message_len` bytes: its offset from the left and its
    /// width. The box is the message plus a border and a space on each
    /// side, at most the row's width, and centred (flush left when it fills
    /// the row).
    pub fn box_geometry(message_len: usize, area_width: u16) -> (r: (u16, u16))
        requires
            message_len + 4 <= usize::MAX,
        ensures
            r.1 == (if message_len + 4 < area_width { message_len + 4 } else { area_width as int }),
            r.0 == (if area_width > r.1 { (area_width - r.1) / 2 } else { 0 }),
    {
        let wanted = message_len + 4;
        let width: u16 = if wanted < area_width as usize { wanted as u16 } else { area_width };
        let x: u16 = if area_width > width { (area_width - width) / 2 } else { 0 };
        (x, width)
    }

    /// Whether the banner has been shown for longer than `ttl` (see
    /// `expired_after`). The time shown is read from the clock, and the
    /// lengths of the two durations are read through `Duration::as_nanos`,
    /// which is opaque here; so no clause speaks of the answer.
    pub fn is_expired(&self, ttl: Duration) -> bool {
        let shown = elapsed_since(&self.created_at);
        expired_after(duration_nanos(&shown), duration_nanos(&ttl))
    }
}

} // verus!
