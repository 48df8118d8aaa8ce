//! The countdown timer: a value type holding a label, the three duration
//! text fields, and the lifecycle state (idle, running or paused), with the
//! transitions `start`, `pause`, `unpause`, `reset` and the pure query
//! `rest_duration`.
//!
//! Every transition and query exists in two forms: a `..._at` function that
//! takes the clock reading `now_ms` as an argument and is specified exactly,
//! and a convenience form that reads the clock itself through
//! [`Timer::time_millis`] and promises what holds of every possible reading.

use vstd::prelude::*;
use vstd::string::StrSliceExecFns;

verus! {

/// A decimal digit, `'0'` through `'9'`.
pub open spec fn is_dec_digit(c: char) -> bool {
    '0' <= c && c <= '9'
}

/// A non-empty run of decimal digits.
pub open spec fn dec_digits_ok(s: Seq<char>) -> bool {
    s.len() > 0 && forall|i: int| 0 <= i < s.len() ==> is_dec_digit(#[trigger] s[i])
}

/// The numeric value of a digit run, most significant digit first.
pub open spec fn dec_value(s: Seq<char>) -> int
    decreases s.len(),
{
    if s.len() == 0 {
        0
    } else {
        dec_value(s.drop_last()) * 10 + (s.last() as int - '0' as int)
    }
}

/// A duration field may carry one leading `'+'` sign; the rest is the digits.
pub open spec fn unsigned_text(s: Seq<char>) -> Seq<char> {
    if s.len() > 0 && s[0] == '+' {
        s.subrange(1, s.len() as int)
    } else {
        s
    }
}

/// What one duration text field counts for: its decimal value when it is an
/// optionally `'+'`-signed digit run whose value fits in a `u32`, and zero on
/// any malformed or empty text.
pub open spec fn parsed_field(s: Seq<char>) -> u32 {
    let d = unsigned_text(s);
    if dec_digits_ok(d) && dec_value(d) <= u32::MAX {
        dec_value(d) as u32
    } else {
        0u32
    }
}

proof fn lemma_dec_value_nonneg(s: Seq<char>)
    requires
        forall|i: int| 0 <= i < s.len() ==> is_dec_digit(#[trigger] s[i]),
    ensures
        dec_value(s) >= 0,
    decreases s.len(),
{
    if s.len() > 0 {
        lemma_dec_value_nonneg(s.drop_last());
    }
}

/// Appending digits never shrinks the value of a digit run.
proof fn lemma_dec_value_prefix(s: Seq<char>, k: int)
    requires
        0 <= k <= s.len(),
        forall|i: int| 0 <= i < s.len() ==> is_dec_digit(#[trigger] s[i]),
    ensures
        dec_value(s) >= dec_value(s.subrange(0, k)),
    decreases s.len() - k,
{
    if k < s.len() {
        let pre = s.subrange(0, k + 1);
        assert(pre.drop_last() =~= s.subrange(0, k));
        lemma_dec_value_nonneg(s.subrange(0, k));
        assert(dec_value(pre) == dec_value(s.subrange(0, k)) * 10 + (s[k] as int - '0' as int));
        lemma_dec_value_prefix(s, k + 1);
    } else {
        assert(s.subrange(0, k) =~= s);
    }
}

/// Reads a duration text field: the decimal value of an optionally
/// `'+'`-signed digit run, and zero for anything else (empty text, stray
/// characters, or a value over `u32::MAX`). Malformed input never blocks a
/// query; it merely counts for nothing.
pub fn parse_u32_or_zero(s: &str) -> (r: u32)
    ensures
        r == parsed_field(s@),
{
    let n: usize = s.unicode_len();
    let mut i: usize = 0;
    if n > 0 && s.get_char(0) == '+' {
        i = 1;
    }
    let ghost d = unsigned_text(s@);
    proof {
        assert(d =~= s@.subrange(i as int, n as int));
    }
    if i == n {
        return 0;
    }
    let mut acc: u32 = 0;
    let mut j: usize = i;
    while j < n
        invariant
            i <= j <= n,
            n == s@.len(),
            i < n,
            d == s@.subrange(i as int, n as int),
            d == unsigned_text(s@),
            forall|t: int| 0 <= t < j - i ==> is_dec_digit(#[trigger] d[t]),
            acc == dec_value(d.subrange(0, j - i)),
        decreases n - j,
    {
        let c: char = s.get_char(j);
        let v: u32 = c as u32;
        if v < 48 || v > 57 {
            proof {
                assert(d[j - i] == c);
                assert(!is_dec_digit(c));
            }
            return 0;
        }
        let digit: u32 = v - 48;
        proof {
            assert(d.subrange(0, j - i + 1).drop_last() =~= d.subrange(0, j - i));
            assert(d.subrange(0, j - i + 1).last() == d[j - i]);
            assert(d[j - i] == c);
            assert(dec_value(d.subrange(0, j - i + 1)) == acc * 10 + digit);
        }
        if acc > 429496729 || (acc == 429496729 && digit > 5) {
            proof {
                if dec_digits_ok(d) {
                    lemma_dec_value_prefix(d, j - i + 1);
                    assert(dec_value(d) > u32::MAX);
                }
            }
            return 0;
        }
        acc = acc * 10 + digit;
        j = j + 1;
    }
    proof {
        assert(d.subrange(0, n - i) =~= d);
        assert(dec_digits_ok(d));
    }
    acc
}

/// One countdown timer. The duration is configured as three free-form text
/// fields and re-read on every query; the lifecycle state lives in
/// `started_ms` (`None` while idle) and `pause_elapsed_ms` (`Some` while
/// paused, holding the elapsed time frozen at the pause instant).
pub struct Timer {
    pub label: String,
    pub hours: String,
    pub minutes: String,
    pub seconds: String,
    pub started_ms: Option<u64>,
    pub pause_elapsed_ms: Option<u64>,
    pub auto_restart: bool,
    pub restart_count: u64,
}

impl Timer {
    /// A paused timer always belongs to a run: pausing while idle is a no-op,
    /// and every transition keeps it that way.
    pub open spec fn wf(self) -> bool {
        self.pause_elapsed_ms is Some ==> self.started_ms is Some
    }

    /// The configured countdown target in whole seconds, re-derived from the
    /// three text fields.
    pub open spec fn spec_target_secs(self) -> int {
        (parsed_field(self.hours@) as int) * 3600 + (parsed_field(self.minutes@) as int) * 60
            + parsed_field(self.seconds@) as int
    }

    /// Elapsed milliseconds of the current run at clock reading `now_ms`:
    /// frozen at the pause instant while paused, otherwise the span since the
    /// run began, clamped at zero against a clock that moved backwards.
    pub open spec fn spec_elapsed_ms(self, now_ms: u64) -> int {
        match self.pause_elapsed_ms {
            Some(p) => p as int,
            None => match self.started_ms {
                Some(s) => if now_ms >= s {
                    now_ms - s
                } else {
                    0
                },
                None => 0,
            },
        }
    }

    /// Remaining milliseconds at clock reading `now_ms`: target minus
    /// elapsed, floored at zero.
    pub open spec fn spec_remaining_ms(self, now_ms: u64) -> int {
        let rest = self.spec_target_secs() * 1000 - self.spec_elapsed_ms(now_ms);
        if rest >= 0 {
            rest
        } else {
            0
        }
    }

    /// What the remaining-time query returns: `None` while idle, otherwise
    /// the remaining milliseconds.
    pub open spec fn spec_rest(self, now_ms: u64) -> Option<u64> {
        if self.started_ms is None {
            None
        } else {
            Some(self.spec_remaining_ms(now_ms) as u64)
        }
    }

    /// A timer is expired exactly when it has a run and its remaining time
    /// has reached zero; this is a derived view, not a stored state.
    pub open spec fn spec_expired(self, now_ms: u64) -> bool {
        self.started_ms is Some && self.spec_remaining_ms(now_ms) == 0
    }

    /// The target never exceeds `u32::MAX` seconds per field, so the
    /// remaining milliseconds always fit comfortably in a `u64`.
    pub proof fn lemma_remaining_bounds(self, now_ms: u64)
        ensures
            0 <= self.spec_target_secs() * 1000 <= 15_723_875_266_995_000,
            0 <= self.spec_remaining_ms(now_ms) <= self.spec_target_secs() * 1000,
    {
    }

    /// The state after `start` at clock reading `now_ms`: a fresh run from
    /// `now_ms`, not paused, with one more start on the count.
    pub open spec fn spec_start(self, now_ms: u64) -> Timer {
        Timer {
            label: self.label,
            hours: self.hours,
            minutes: self.minutes,
            seconds: self.seconds,
            started_ms: Some(now_ms),
            pause_elapsed_ms: None,
            auto_restart: self.auto_restart,
            restart_count: (self.restart_count + 1) as u64,
        }
    }

    /// The state after `pause` at clock reading `now_ms`: a running timer
    /// freezes its elapsed time; a paused or idle timer is left as it is.
    pub open spec fn spec_pause(self, now_ms: u64) -> Timer {
        match (self.pause_elapsed_ms, self.started_ms) {
            (None, Some(s)) => Timer {
                label: self.label,
                hours: self.hours,
                minutes: self.minutes,
                seconds: self.seconds,
                started_ms: self.started_ms,
                pause_elapsed_ms: Some(
                    if now_ms >= s {
                        (now_ms - s) as u64
                    } else {
                        0u64
                    },
                ),
                auto_restart: self.auto_restart,
                restart_count: self.restart_count,
            },
            _ => self,
        }
    }

    /// The state after `unpause` at clock reading `now_ms`: the virtual start
    /// point shifts forward so that exactly the frozen elapsed time has been
    /// spent; a timer that is not paused is left as it is.
    pub open spec fn spec_unpause(self, now_ms: u64) -> Timer {
        match self.pause_elapsed_ms {
            Some(p) => Timer {
                label: self.label,
                hours: self.hours,
                minutes: self.minutes,
                seconds: self.seconds,
                started_ms: Some(
                    if now_ms >= p {
                        (now_ms - p) as u64
                    } else {
                        0u64
                    },
                ),
                pause_elapsed_ms: None,
                auto_restart: self.auto_restart,
                restart_count: self.restart_count,
            },
            None => self,
        }
    }

    /// The state after `reset`: idle, with the start count cleared and the
    /// label, the text fields and the auto-restart flag kept.
    pub open spec fn spec_reset(self) -> Timer {
        Timer {
            label: self.label,
            hours: self.hours,
            minutes: self.minutes,
            seconds: self.seconds,
            started_ms: None,
            pause_elapsed_ms: None,
            auto_restart: self.auto_restart,
            restart_count: 0u64,
        }
    }

    /// An expiry-tick fires exactly when the timer is expired and set to
    /// auto-restart; the alert sounds only on such a tick.
    pub open spec fn spec_fires(self, now_ms: u64) -> bool {
        self.spec_expired(now_ms) && self.auto_restart
    }

    /// The state after one expiry-tick evaluation at clock reading `now_ms`:
    /// an expired auto-restart timer re-arms itself; any other timer is
    /// untouched.
    pub open spec fn spec_tick(self, now_ms: u64) -> Timer {
        if self.spec_fires(now_ms) {
            self.spec_start(now_ms)
        } else {
            self
        }
    }

    /// Relies on `std::time::SystemTime::now` and
    /// `SystemTime::duration_since`: the wall-clock milliseconds since the
    /// Unix epoch. A clock standing before the epoch reads as zero; nothing
    /// is promised of the value, so every caller must hold for any reading.
    #[verifier::external_body]
    pub fn time_millis() -> u64 {
        match std::time::SystemTime::now().duration_since(std::time::UNIX_EPOCH) {
            Ok(d) => d.as_millis() as u64,
            Err(_) => 0,
        }
    }

    /// Begins a run at the given clock reading.
    pub fn start_at(&mut self, now_ms: u64)
        requires
            old(self).restart_count < u64::MAX,
        ensures
            *final(self) == old(self).spec_start(now_ms),
    {
        self.started_ms = Some(now_ms);
        self.pause_elapsed_ms = None;
        self.restart_count = self.restart_count + 1;
    }

    /// Freezes a running timer's elapsed time at the given clock reading;
    /// a paused or idle timer is left untouched.
    pub fn pause_at(&mut self, now_ms: u64)
        ensures
            *final(self) == old(self).spec_pause(now_ms),
    {
        if self.pause_elapsed_ms.is_none() {
            if let Some(s) = self.started_ms {
                self.pause_elapsed_ms = Some(
                    if now_ms >= s {
                        now_ms - s
                    } else {
                        0
                    },
                );
            }
        }
    }

    /// Resumes a paused timer at the given clock reading; a timer that is
    /// not paused is left untouched.
    pub fn unpause_at(&mut self, now_ms: u64)
        ensures
            *final(self) == old(self).spec_unpause(now_ms),
    {
        if let Some(p) = self.pause_elapsed_ms {
            self.started_ms = Some(
                if now_ms >= p {
                    now_ms - p
                } else {
                    0
                },
            );
            self.pause_elapsed_ms = None;
        }
    }

    /// Returns the timer to idle: no run, not paused, start count cleared.
    pub fn reset(&mut self)
        ensures
            *final(self) == old(self).spec_reset(),
    {
        self.started_ms = None;
        self.pause_elapsed_ms = None;
        self.restart_count = 0;
    }

    /// The pure remaining-time query at the given clock reading: `None`
    /// while idle, otherwise the remaining milliseconds, floored at zero.
    pub fn rest_duration_at(&self, now_ms: u64) -> (r: Option<u64>)
        ensures
            r == self.spec_rest(now_ms),
    {
        let s: u64 = match self.started_ms {
            Some(s) => s,
            None => {
                return None;
            },
        };
        let elapsed: u64 = match self.pause_elapsed_ms {
            Some(p) => p,
            None => if now_ms >= s {
                now_ms - s
            } else {
                0
            },
        };
        let h: u64 = parse_u32_or_zero(self.hours.as_str()) as u64;
        let m: u64 = parse_u32_or_zero(self.minutes.as_str()) as u64;
        let sec: u64 = parse_u32_or_zero(self.seconds.as_str()) as u64;
        let target_ms: u64 = (h * 3600 + m * 60 + sec) * 1000;
        if target_ms <= elapsed {
            Some(0)
        } else {
            Some(target_ms - elapsed)
        }
    }

    /// Whether the timer is expired at the given clock reading.
    pub fn is_expired_at(&self, now_ms: u64) -> (b: bool)
        ensures
            b == self.spec_expired(now_ms),
    {
        proof {
            self.lemma_remaining_bounds(now_ms);
        }
        match self.rest_duration_at(now_ms) {
            Some(r) => r == 0,
            None => false,
        }
    }

    /// One expiry-tick evaluation at the given clock reading: an expired
    /// auto-restart timer re-arms itself and reports that it fired, so the
    /// caller sounds the alert exactly once per expiry; any other timer is
    /// untouched.
    pub fn tick_at(&mut self, now_ms: u64) -> (fired: bool)
        requires
            old(self).restart_count < u64::MAX,
        ensures
            fired == old(self).spec_fires(now_ms),
            *final(self) == old(self).spec_tick(now_ms),
    {
        if self.auto_restart && self.is_expired_at(now_ms) {
            self.start_at(now_ms);
            true
        } else {
            false
        }
    }

    /// Begins a run at the current wall-clock reading. The clock value is
    /// not under the caller's control, so the contract holds for every
    /// possible reading.
    pub fn start(&mut self)
        requires
            old(self).restart_count < u64::MAX,
        ensures
            exists|now_ms: u64| *final(self) == old(self).spec_start(now_ms),
            final(self).started_ms is Some,
            final(self).pause_elapsed_ms is None,
            final(self).restart_count == old(self).restart_count + 1,
            final(self).label == old(self).label,
            final(self).hours == old(self).hours,
            final(self).minutes == old(self).minutes,
            final(self).seconds == old(self).seconds,
            final(self).auto_restart == old(self).auto_restart,
    {
        let now_ms: u64 = Timer::time_millis();
        self.start_at(now_ms);
        proof {
            assert(*self == old(self).spec_start(now_ms));
        }
    }

    /// Freezes a running timer's elapsed time at the current wall-clock
    /// reading; a paused or idle timer is left untouched.
    pub fn pause(&mut self)
        ensures
            exists|now_ms: u64| *final(self) == old(self).spec_pause(now_ms),
            old(self).pause_elapsed_ms is Some || old(self).started_ms is None ==> *final(self)
                == *old(self),
            old(self).pause_elapsed_ms is None && old(self).started_ms is Some
                ==> final(self).pause_elapsed_ms is Some,
            final(self).started_ms == old(self).started_ms,
            final(self).restart_count == old(self).restart_count,
            final(self).label == old(self).label,
            final(self).hours == old(self).hours,
            final(self).minutes == old(self).minutes,
            final(self).seconds == old(self).seconds,
            final(self).auto_restart == old(self).auto_restart,
    {
        let now_ms: u64 = Timer::time_millis();
        self.pause_at(now_ms);
        proof {
            assert(*self == old(self).spec_pause(now_ms));
        }
    }

    /// Resumes a paused timer at the current wall-clock reading; a timer
    /// that is not paused is left untouched.
    pub fn unpause(&mut self)
        ensures
            exists|now_ms: u64| *final(self) == old(self).spec_unpause(now_ms),
            old(self).pause_elapsed_ms is None ==> *final(self) == *old(self),
            final(self).pause_elapsed_ms is None,
            final(self).restart_count == old(self).restart_count,
            final(self).label == old(self).label,
            final(self).hours == old(self).hours,
            final(self).minutes == old(self).minutes,
            final(self).seconds == old(self).seconds,
            final(self).auto_restart == old(self).auto_restart,
    {
        let now_ms: u64 = Timer::time_millis();
        self.unpause_at(now_ms);
        proof {
            assert(*self == old(self).spec_unpause(now_ms));
        }
    }

    /// The remaining-time query at the current wall-clock reading: `None`
    /// exactly while idle; while paused the answer is frozen and does not
    /// depend on the reading at all.
    pub fn rest_duration(&self) -> (r: Option<u64>)
        ensures
            exists|now_ms: u64| r == self.spec_rest(now_ms),
            r is Some <==> self.started_ms is Some,
            self.pause_elapsed_ms is Some ==> r == self.spec_rest(0),
    {
        let now_ms: u64 = Timer::time_millis();
        let r = self.rest_duration_at(now_ms);
        proof {
            assert(r == self.spec_rest(now_ms));
        }
        r
    }
}

impl Default for Timer {
    /// A fresh timer: empty label, a zero-second target written as the three
    /// `"0"` fields, idle, not auto-restarting, with no starts counted.
    fn default() -> (t: Timer)
        ensures
            t.label@ == Seq::<char>::empty(),
            t.hours@ == seq!['0'],
            t.minutes@ == seq!['0'],
            t.seconds@ == seq!['0'],
            t.started_ms is None,
            t.pause_elapsed_ms is None,
            !t.auto_restart,
            t.restart_count == 0,
            t.spec_target_secs() == 0,
    {
        let t = Timer {
            label: String::new(),
            hours: "0".to_owned(),
            minutes: "0".to_owned(),
            seconds: "0".to_owned(),
            started_ms: None,
            pause_elapsed_ms: None,
            auto_restart: false,
            restart_count: 0,
        };
        proof {
            reveal_strlit("0");
            assert(t.hours@ =~= seq!['0']);
            assert(seq!['0'].drop_last() =~= Seq::<char>::empty());
            assert(dec_value(Seq::<char>::empty()) == 0);
            assert(seq!['0'].last() == '0');
            assert(dec_value(seq!['0']) == dec_value(seq!['0'].drop_last()) * 10 + ('0' as int
                - '0' as int));
            assert(dec_value(seq!['0']) == 0);
            assert(unsigned_text(seq!['0']) =~= seq!['0']);
            assert(parsed_field(seq!['0']) == 0);
        }
        t
    }
}

} // verus!
