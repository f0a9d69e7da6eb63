//! The announcer's clock: how long to sleep between two announcements.

use vstd::prelude::*;
use rand::Rng;
use rand::rngs::OsRng;
use crate::time::Span;

verus! {

/// Draws a number below `bound` from the operating system's generator.
///
/// Calls `rand::Rng::gen_range` on `rand::rngs::OsRng` with the half-open
/// range from zero to `bound`. Taken on trust: the draw lies in that range.
/// An empty range makes `gen_range` panic, so `bound` is positive. Nothing is
/// said about which number is drawn.
#[verifier::external_body]
fn random_below(bound: u64) -> (draw: u64)
    requires
        bound > 0,
    ensures
        draw < bound,
{
    OsRng.gen_range(0..bound)
}

/// The sleep owed for `pause`: none where it is empty.
pub fn wait(pause: Span) -> (sleep: Option<Span>)
    ensures
        sleep == if pause.millis > 0 {
            Some(pause)
        } else {
            None::<Span>
        },
{
    if pause.is_zero() {
        None
    } else {
        Some(pause)
    }
}

/// `base` lengthened by `draw` milliseconds, or `base` itself where there is
/// no jitter.
pub open spec fn spec_jittered(base: Span, jitter: Span, draw: u64) -> Span {
    if jitter.millis == 0 {
        base
    } else {
        Span { millis: (base.millis + draw) as u128 }
    }
}

/// The pause for a given draw.
pub fn jittered_by(base: Span, jitter: Span, draw: u64) -> (pause: Span)
    requires
        jitter.millis > 0 ==> base.millis + draw <= u128::MAX,
    ensures
        pause == spec_jittered(base, jitter, draw),
{
    if jitter.is_zero() {
        base
    } else {
        Span { millis: base.millis + draw as u128 }
    }
}

/// The pause before the next announcement: `base`, lengthened by a random
/// number of milliseconds below `jitter`.
///
/// The jitter in milliseconds has to fit the generator's sixty-four bits, and
/// the longest pause the counter.
pub fn jittered(base: Span, jitter: Span) -> (pause: Span)
    requires
        jitter.millis <= u64::MAX,
        base.millis + jitter.millis <= u128::MAX,
    ensures
        jitter.millis == 0 ==> pause == base,
        jitter.millis > 0 ==> base.millis <= pause.millis < base.millis + jitter.millis,
        exists|draw: u64|
            (jitter.millis > 0 ==> draw < jitter.millis) && pause == #[trigger] spec_jittered(
                base,
                jitter,
                draw,
            ),
{
    if jitter.is_zero() {
        assert(base == spec_jittered(base, jitter, 0));
        base
    } else {
        let draw: u64 = random_below(jitter.millis as u64);
        let pause = jittered_by(base, jitter, draw);
        assert(pause == spec_jittered(base, jitter, draw));
        pause
    }
}

/// With a jitter that is no longer than the base, the pause is at least the
/// base and less than base and jitter together, for every draw below the
/// jitter. The sum has to fit the counter.
pub proof fn law_jitter_bounds_the_pause(base: Span, jitter: Span, draw: u64)
    requires
        jitter.millis <= base.millis,
        jitter.millis > 0,
        draw < jitter.millis,
        base.millis + jitter.millis <= u128::MAX,
    ensures
        base.millis <= spec_jittered(base, jitter, draw).millis < base.millis + jitter.millis,
{
}

} // verus!
