//! The application state around the timers: an ordered, positionally
//! indexed list of [`Timer`] values and the visual flash counter that drives
//! the expiry cue, with append, removal by index, batched removal, and the
//! per-tick expiry evaluation over the whole list.

use vstd::prelude::*;

use crate::timer::Timer;

verus! {

/// The application state: the timer list in insertion order, and the flash
/// counter counting down the remaining flash frames of the expiry cue.
pub struct TemplateApp {
    pub timers: Vec<Timer>,
    pub flash_count: u32,
}

/// The elements of `s` from position `i` on whose index is not listed in
/// `marks`, in their original order.
pub open spec fn keep_from(s: Seq<Timer>, marks: Seq<usize>, i: int) -> Seq<Timer>
    decreases s.len() - i,
{
    if i < 0 || i >= s.len() {
        Seq::empty()
    } else {
        let rest = keep_from(s, marks, i + 1);
        if marks.contains(i as usize) {
            rest
        } else {
            seq![s[i]] + rest
        }
    }
}

/// The elements of `s` whose index is not listed in `marks`, in their
/// original order: what one batched removal pass leaves behind.
pub open spec fn keep_unmarked(s: Seq<Timer>, marks: Seq<usize>) -> Seq<Timer> {
    keep_from(s, marks, 0)
}

/// Every timer of `s` after one expiry-tick evaluation at `now_ms`.
pub open spec fn tick_all(s: Seq<Timer>, now_ms: u64) -> Seq<Timer> {
    s.map_values(|t: Timer| t.spec_tick(now_ms))
}

/// How many timers of `s` fire (expire with auto-restart set) at `now_ms`:
/// one alert sounds per fired timer.
pub open spec fn count_fired(s: Seq<Timer>, now_ms: u64) -> int
    decreases s.len(),
{
    if s.len() == 0 {
        0
    } else {
        count_fired(s.drop_last(), now_ms) + if s.last().spec_fires(now_ms) {
            1int
        } else {
            0int
        }
    }
}

/// The flash counter after one tick on which no timer fired: one frame is
/// consumed, and it never goes below zero.
pub open spec fn flash_decrement(flash: u32) -> u32 {
    if flash > 0 {
        (flash - 1) as u32
    } else {
        0u32
    }
}

/// Whether `marks` lists the index `x`.
fn contains_index(marks: &Vec<usize>, x: usize) -> (b: bool)
    ensures
        b == marks@.contains(x),
{
    let mut k: usize = 0;
    while k < marks.len()
        invariant
            k <= marks@.len(),
            forall|t: int| 0 <= t < k ==> marks@[t] != x,
        decreases marks@.len() - k,
    {
        if marks[k] == x {
            proof {
                assert(marks@[k as int] == x);
            }
            return true;
        }
        k = k + 1;
    }
    false
}

/// A mutable borrow of the timer at position `i`.
fn timer_at(v: &mut Vec<Timer>, i: usize) -> (element: &mut Timer)
    requires
        i < old(v).len(),
    ensures
        *element == old(v)@[i as int],
        final(v)@ == old(v)@.update(i as int, *final(element)),
{
    &mut v[i]
}

impl Default for TemplateApp {
    /// The state at application start: no timers, no flash pending.
    fn default() -> (a: TemplateApp)
        ensures
            a.timers@ == Seq::<Timer>::empty(),
            a.flash_count == 0,
    {
        let a = TemplateApp { timers: Vec::new(), flash_count: 0 };
        proof {
            assert(a.timers@ =~= Seq::<Timer>::empty());
        }
        a
    }
}

impl TemplateApp {
    /// Appends a timer at the end of the list; no other timer moves.
    pub fn add_timer(&mut self, t: Timer)
        ensures
            final(self).timers@ == old(self).timers@.push(t),
            final(self).flash_count == old(self).flash_count,
    {
        self.timers.push(t);
    }

    /// Removes the timer at position `idx`, shifting the later ones down by
    /// one; an out-of-range index is ignored.
    pub fn remove_timer(&mut self, idx: usize)
        ensures
            idx < old(self).timers@.len() ==> final(self).timers@ == old(self).timers@.remove(
                idx as int,
            ),
            idx >= old(self).timers@.len() ==> *final(self) == *old(self),
            final(self).flash_count == old(self).flash_count,
    {
        if idx < self.timers.len() {
            self.timers.remove(idx);
        }
    }

    /// Applies one batched removal pass: every position listed in `marks`
    /// (gathered against the list as it stands now) is removed at once, so
    /// the marks never go stale against shifted indices. The survivors keep
    /// their relative order; an out-of-range mark is ignored.
    pub fn remove_timers(&mut self, marks: &Vec<usize>)
        ensures
            final(self).timers@ == keep_unmarked(old(self).timers@, marks@),
            final(self).flash_count == old(self).flash_count,
    {
        let ghost s = self.timers@;
        let mut i: usize = self.timers.len();
        proof {
            assert(s.subrange(0, i as int) =~= s);
            assert(self.timers@ =~= s.subrange(0, i as int) + keep_from(s, marks@, i as int));
        }
        while i > 0
            invariant
                i <= s.len(),
                self.timers@ == s.subrange(0, i as int) + keep_from(s, marks@, i as int),
                self.flash_count == old(self).flash_count,
            decreases i,
        {
            i = i - 1;
            let marked = contains_index(marks, i);
            if marked {
                proof {
                    assert(self.timers@.len() == i + 1 + keep_from(s, marks@, i + 1).len());
                    assert(s.subrange(0, i + 1).drop_last() =~= s.subrange(0, i as int));
                }
                self.timers.remove(i);
                proof {
                    assert(self.timers@ =~= s.subrange(0, i as int) + keep_from(
                        s,
                        marks@,
                        i as int,
                    ));
                }
            } else {
                proof {
                    assert(s.subrange(0, i + 1) =~= s.subrange(0, i as int).push(s[i as int]));
                    assert(self.timers@ =~= s.subrange(0, i as int) + keep_from(
                        s,
                        marks@,
                        i as int,
                    ));
                }
            }
        }
        proof {
            assert(s.subrange(0, 0) =~= Seq::<Timer>::empty());
            assert(self.timers@ =~= keep_unmarked(s, marks@));
        }
    }

    /// One application tick at clock reading `now_ms`: consumes one flash
    /// frame, evaluates every timer's expiry in order, re-arms the expired
    /// auto-restart ones, and reports how many fired so the caller plays
    /// that many alerts. Any firing re-arms the flash cue to ten frames.
    pub fn tick(&mut self, now_ms: u64) -> (beeps: usize)
        requires
            forall|i: int|
                0 <= i < old(self).timers@.len() ==> (#[trigger] old(
                    self,
                ).timers@[i]).restart_count < u64::MAX,
        ensures
            final(self).timers@ == tick_all(old(self).timers@, now_ms),
            beeps == count_fired(old(self).timers@, now_ms),
            final(self).flash_count == if count_fired(old(self).timers@, now_ms) > 0 {
                10u32
            } else {
                flash_decrement(old(self).flash_count)
            },
    {
        if self.flash_count > 0 {
            self.flash_count = self.flash_count - 1;
        }
        let ghost s = self.timers@;
        let ghost dec = flash_decrement(old(self).flash_count);
        let n: usize = self.timers.len();
        let mut beeps: usize = 0;
        let mut i: usize = 0;
        proof {
            assert(s.subrange(0, 0) =~= Seq::<Timer>::empty());
        }
        while i < n
            invariant
                i <= n,
                n == s.len(),
                self.timers@.len() == s.len(),
                forall|t: int|
                    0 <= t < i ==> self.timers@[t] == (#[trigger] s[t]).spec_tick(now_ms),
                forall|t: int| i <= t < n ==> #[trigger] self.timers@[t] == s[t],
                forall|t: int| 0 <= t < s.len() ==> (#[trigger] s[t]).restart_count < u64::MAX,
                beeps == count_fired(s.subrange(0, i as int), now_ms),
                beeps <= i,
                self.flash_count == if beeps > 0 {
                    10u32
                } else {
                    dec
                },
            decreases n - i,
        {
            let fired = timer_at(&mut self.timers, i).tick_at(now_ms);
            if fired {
                self.flash_count = 10;
                beeps = beeps + 1;
            }
            proof {
                assert(s.subrange(0, i + 1).drop_last() =~= s.subrange(0, i as int));
                assert(s.subrange(0, i + 1).last() == s[i as int]);
            }
            i = i + 1;
        }
        proof {
            assert(s.subrange(0, n as int) =~= s);
            assert(self.timers@ =~= tick_all(s, now_ms));
        }
        beeps
    }

    /// Whether the flash cue paints the frame red: it alternates with the
    /// parity of the remaining flash frames.
    pub fn is_flash_on(&self) -> (b: bool)
        ensures
            b == (self.flash_count % 2 == 1),
    {
        self.flash_count % 2 == 1
    }
}

} // verus!
