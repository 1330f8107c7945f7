//! When the transparent, full-screen window lets mouse clicks through.
//!
//! The cursor is sampled over and over; a sample is "inside" when it lies
//! over one of the page's interactive regions. The window ignores the
//! cursor while it is outside them, but the switch is only made once the
//! same wish has been seen in three samples in a row.

use vstd::prelude::*;

verus! {

/// How long the watcher waits between two cursor samples, in milliseconds.
pub const SAMPLE_INTERVAL_MS: u64 = 32;

/// How far around an interactive region a sample still counts as inside
/// it, in logical pixels.
pub const REGION_PADDING: u32 = 10;

/// How many agreeing samples in a row it takes to switch.
pub const STABLE_SAMPLES_TO_SWITCH: u8 = 3;

/// The debounce between cursor samples and the window's
/// "ignore cursor events" flag.
#[derive(Clone, Copy, Debug, PartialEq, Eq, Structural)]
pub struct InteractionWatch {
    /// Whether the window currently ignores cursor events (as last set).
    pub ignored: bool,
    /// The flag that the latest samples ask for.
    pub candidate: bool,
    /// How many samples in a row have asked for `candidate` (saturating).
    pub stable_samples: u8,
}

/// The state before any sample.
pub open spec fn initial_watch() -> InteractionWatch {
    InteractionWatch { ignored: false, candidate: false, stable_samples: 0 }
}

/// One sample: the next state, and the flag to set on the window, if any.
pub open spec fn observe_spec(w: InteractionWatch, inside: bool) -> (InteractionWatch, Option<bool>) {
    let wish = !inside;
    let (candidate, stable) = if wish == w.candidate {
        (w.candidate, if w.stable_samples + 1 > 255 { 255u8 } else { (w.stable_samples + 1) as u8 })
    } else {
        (wish, 1u8)
    };
    if stable >= 3 && candidate != w.ignored {
        (InteractionWatch { ignored: candidate, candidate, stable_samples: stable }, Some(candidate))
    } else {
        (InteractionWatch { ignored: w.ignored, candidate, stable_samples: stable }, None)
    }
}

impl InteractionWatch {
    /// The state before any sample: cursor events are not ignored.
    pub fn new() -> (r: Self)
        ensures
            r == initial_watch(),
    {
        InteractionWatch { ignored: false, candidate: false, stable_samples: 0 }
    }

    /// Takes one sample; returns the flag to set on the window when it
    /// should change.
    pub fn observe(&mut self, inside: bool) -> (r: Option<bool>)
        ensures
            (*final(self), r) == observe_spec(*old(self), inside),
    {
        let next_ignored = !inside;
        if next_ignored == self.candidate {
            self.stable_samples = self.stable_samples.saturating_add(1);
        } else {
            self.candidate = next_ignored;
            self.stable_samples = 1;
        }
        if self.stable_samples >= STABLE_SAMPLES_TO_SWITCH && self.candidate != self.ignored {
            self.ignored = self.candidate;
            Some(self.candidate)
        } else {
            None
        }
    }
}

/// The state after the samples `h`, oldest first.
pub open spec fn watch_after(h: Seq<bool>) -> InteractionWatch
    decreases h.len(),
{
    if h.len() == 0 {
        initial_watch()
    } else {
        observe_spec(watch_after(h.drop_last()), h.last()).0
    }
}

/// How many of the latest samples in `h` agree with the last one.
pub open spec fn trailing_run(h: Seq<bool>) -> nat
    decreases h.len(),
{
    if h.len() == 0 {
        0
    } else if h.len() == 1 {
        1
    } else if h.last() == h[h.len() - 2] {
        trailing_run(h.drop_last()) + 1
    } else {
        1
    }
}

/// After any samples, the state records the wish of the last sample and
/// how many samples in a row made it (at most 255).
pub proof fn law_watch_tracks_samples(h: Seq<bool>)
    requires
        h.len() > 0,
    ensures
        watch_after(h).candidate == !h.last(),
        watch_after(h).stable_samples == (if trailing_run(h) > 255 { 255 } else { trailing_run(h) }),
    decreases h.len(),
{
    let prev = watch_after(h.drop_last());
    if h.len() > 1 {
        law_watch_tracks_samples(h.drop_last());
        assert(h.drop_last().last() == h[h.len() - 2]);
        if h.last() == h[h.len() - 2] {
            assert(trailing_run(h) == trailing_run(h.drop_last()) + 1);
            assert(prev.candidate == !h.last());
        } else {
            assert(trailing_run(h) == 1);
            assert(prev.candidate != !h.last());
        }
    } else {
        assert(h.drop_last().len() == 0);
        assert(prev == initial_watch());
        assert(trailing_run(h) == 1);
    }
}

/// The latest `m` samples agree when the trailing run is at least `m`.
pub proof fn lemma_trailing_run_agrees(h: Seq<bool>, m: nat)
    requires
        m <= trailing_run(h),
    ensures
        forall|k: int| h.len() - m <= k < h.len() ==> h[k] == h.last(),
    decreases h.len(),
{
    lemma_trailing_run_len(h);
    if h.len() > 1 && h.last() == h[h.len() - 2] && m > 1 {
        lemma_trailing_run_agrees(h.drop_last(), (m - 1) as nat);
        assert forall|k: int| h.len() - m <= k < h.len() implies h[k] == h.last() by {
            if k < h.len() - 1 {
                assert(h[k] == h.drop_last()[k]);
            }
        }
    }
}

/// The window's flag only changes on a sample that completes three
/// agreeing samples in a row, and then to what they ask for; it changes
/// exactly when a flag is handed out.
pub proof fn law_switch_needs_three_agreeing_samples(h: Seq<bool>, inside: bool)
    ensures
        ({
            let (next, out) = observe_spec(watch_after(h), inside);
            let h2 = h.push(inside);
            &&& (out is Some) == (next.ignored != watch_after(h).ignored)
            &&& out is Some ==> {
                &&& out == Some(!inside)
                &&& next.ignored == !inside
                &&& h2.len() >= 3
                &&& forall|k: int| h2.len() - 3 <= k < h2.len() ==> h2[k] == inside
            }
        }),
{
    let h2 = h.push(inside);
    assert(h2.drop_last() =~= h);
    law_watch_tracks_samples(h2);
    if observe_spec(watch_after(h), inside).1 is Some {
        lemma_trailing_run_agrees(h2, 3);
        lemma_trailing_run_len(h2);
    }
}

/// A run never exceeds the number of samples.
pub proof fn lemma_trailing_run_len(h: Seq<bool>)
    ensures
        trailing_run(h) <= h.len(),
    decreases h.len(),
{
    if h.len() > 1 {
        lemma_trailing_run_len(h.drop_last());
    }
}

/// Once three samples in a row agree, the window's flag is what they ask
/// for.
pub proof fn law_three_agreeing_samples_settle(h: Seq<bool>)
    requires
        trailing_run(h) >= 3,
    ensures
        watch_after(h).ignored == !h.last(),
{
    lemma_trailing_run_len(h);
    law_watch_tracks_samples(h);
}

} // verus!
