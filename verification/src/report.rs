//! Human-readable renderings of locations, guard call sites and locks.

use crate::guard::{GuardInfo, GuardKind, GuardView};
use crate::location::{Location, LocationView};
use crate::lock::{LockInfo, LockKind, LockView};
use crate::stats::mean;
use vstd::prelude::*;

verus! {

/// `String::push_str`: appends the text to the end of the string.
pub assume_specification[ std::string::String::push_str ](text: &mut String, more: &str)
    ensures
        final(text)@ == old(text)@ + more@,
;

/// `String::push`: appends the character to the end of the string.
pub assume_specification[ std::string::String::push ](text: &mut String, ch: char)
    ensures
        final(text)@ == old(text)@.push(ch),
;

/// How the standard library prints a duration of `nanos` nanoseconds for
/// debugging, such as `1.5ms`.
pub uninterp spec fn duration_text(nanos: u64) -> Seq<char>;

/// `Duration::from_nanos`, printed with the standard library's `Debug`
/// formatting of durations.
#[verifier::external_body]
fn render_duration(nanos: u64) -> (text: String)
    ensures
        text@ == duration_text(nanos),
{
    format!("{:?}", std::time::Duration::from_nanos(nanos))
}

/// The character of one decimal digit.
pub open spec fn digit_char(d: nat) -> char {
    if d == 0 {
        '0'
    } else if d == 1 {
        '1'
    } else if d == 2 {
        '2'
    } else if d == 3 {
        '3'
    } else if d == 4 {
        '4'
    } else if d == 5 {
        '5'
    } else if d == 6 {
        '6'
    } else if d == 7 {
        '7'
    } else if d == 8 {
        '8'
    } else {
        '9'
    }
}

/// The decimal digits of `n`, most significant first.
pub open spec fn decimal(n: nat) -> Seq<char>
    decreases n,
{
    if n < 10 {
        seq![digit_char(n)]
    } else {
        decimal(n / 10).push(digit_char(n % 10))
    }
}

/// The name of a guard kind.
pub open spec fn guard_kind_text(kind: GuardKind) -> Seq<char> {
    match kind {
        GuardKind::Lock => "Lock"@,
        GuardKind::Read => "Read"@,
        GuardKind::Write => "Write"@,
    }
}

/// The name of a lock kind.
pub open spec fn lock_kind_text(kind: LockKind) -> Seq<char> {
    match kind {
        LockKind::Mutex => "Mutex"@,
        LockKind::RwLock => "RwLock"@,
    }
}

/// The rendering of a location: `path@line:col`.
pub open spec fn location_text(l: LocationView) -> Seq<char> {
    l.path + "@"@ + decimal(l.line as nat) + ":"@ + decimal(l.col as nat)
}

/// The rendering of a guard call site: its location and kind, how many
/// guards are held and waited for, how many were acquired, and the average
/// and maximum of the hold durations and of the wait times.
pub open spec fn guard_text(g: GuardView) -> Seq<char> {
    location_text(g.location) + " ("@ + guard_kind_text(g.kind) + "): curr users: "@ + decimal(
        g.active.len(),
    ) + "; waiting: "@ + decimal(g.waiting.len()) + "; calls: "@ + decimal(g.num_uses)
        + "; duration: "@ + duration_text(mean(g.holds) as u64) + " avg, "@ + duration_text(
        g.max_hold,
    ) + " max; wait: "@ + duration_text(mean(g.waits) as u64) + " avg, "@ + duration_text(
        g.max_wait,
    ) + " max"@
}

/// The renderings of the first `n` guard call sites, each on a line of its
/// own after a dash.
pub open spec fn guard_lines(guards: Seq<GuardView>, n: nat) -> Seq<char>
    decreases n,
{
    if n == 0 || n > guards.len() {
        Seq::empty()
    } else {
        guard_lines(guards, (n - 1) as nat) + "\n- "@ + guard_text(guards[n - 1])
    }
}

/// The rendering of a lock: its location and kind, then its guard call
/// sites, one per line.
pub open spec fn lock_text(l: LockView) -> Seq<char> {
    location_text(l.location) + " ("@ + lock_kind_text(l.kind) + "):"@ + guard_lines(
        l.guards,
        l.guards.len(),
    )
}

fn digit(d: u64) -> (c: char)
    requires
        d < 10,
    ensures
        c == digit_char(d as nat),
{
    if d == 0 {
        '0'
    } else if d == 1 {
        '1'
    } else if d == 2 {
        '2'
    } else if d == 3 {
        '3'
    } else if d == 4 {
        '4'
    } else if d == 5 {
        '5'
    } else if d == 6 {
        '6'
    } else if d == 7 {
        '7'
    } else if d == 8 {
        '8'
    } else {
        '9'
    }
}

/// Appends the decimal digits of `n` to `text`.
pub fn push_decimal(text: &mut String, n: u64)
    ensures
        final(text)@ == old(text)@ + decimal(n as nat),
    decreases n,
{
    if n >= 10 {
        push_decimal(text, n / 10);
    }
    text.push(digit(n % 10));
    proof {
        assert(text@ =~= old(text)@ + decimal(n as nat));
    }
}

fn guard_kind_name(kind: GuardKind) -> (name: &'static str)
    ensures
        name@ == guard_kind_text(kind),
{
    match kind {
        GuardKind::Lock => "Lock",
        GuardKind::Read => "Read",
        GuardKind::Write => "Write",
    }
}

fn lock_kind_name(kind: LockKind) -> (name: &'static str)
    ensures
        name@ == lock_kind_text(kind),
{
    match kind {
        LockKind::Mutex => "Mutex",
        LockKind::RwLock => "RwLock",
    }
}

/// Appends the rendering of `location` to `text`.
fn push_location(text: &mut String, location: &Location)
    ensures
        final(text)@ == old(text)@ + location_text(location@),
{
    text.push_str(location.path.as_str());
    text.push_str("@");
    push_decimal(text, location.line as u64);
    text.push_str(":");
    push_decimal(text, location.col as u64);
    proof {
        assert(text@ =~= old(text)@ + location_text(location@));
    }
}

/// Appends the rendering of `guard` to `text`.
fn push_guard(text: &mut String, guard: &GuardInfo)
    ensures
        final(text)@ == old(text)@ + guard_text(guard@),
{
    push_location(text, &guard.location);
    text.push_str(" (");
    text.push_str(guard_kind_name(guard.kind));
    text.push_str("): curr users: ");
    push_decimal(text, guard.num_active_uses() as u64);
    text.push_str("; waiting: ");
    push_decimal(text, guard.num_waiting() as u64);
    text.push_str("; calls: ");
    push_decimal(text, guard.num_uses);
    text.push_str("; duration: ");
    text.push_str(render_duration(guard.avg_duration()).as_str());
    text.push_str(" avg, ");
    text.push_str(render_duration(guard.max_duration).as_str());
    text.push_str(" max; wait: ");
    text.push_str(render_duration(guard.avg_wait_time()).as_str());
    text.push_str(" avg, ");
    text.push_str(render_duration(guard.max_wait_time).as_str());
    text.push_str(" max");
    proof {
        assert(text@ =~= old(text)@ + guard_text(guard@));
    }
}

impl Location {
    /// The rendering `path@line:col`.
    pub fn render(&self) -> (text: String)
        ensures
            text@ == location_text(self@),
    {
        let mut text = String::new();
        push_location(&mut text, self);
        proof {
            assert(text@ =~= location_text(self@));
        }
        text
    }
}

impl GuardInfo {
    /// The rendering of the call site and its statistics, on one line.
    pub fn render(&self) -> (text: String)
        ensures
            text@ == guard_text(self@),
    {
        let mut text = String::new();
        push_guard(&mut text, self);
        proof {
            assert(text@ =~= guard_text(self@));
        }
        text
    }
}

impl LockInfo {
    /// The rendering of the lock: a line for the lock, then a line for each
    /// of its guard call sites.
    pub fn render(&self) -> (text: String)
        ensures
            text@ == lock_text(self@),
    {
        let mut text = String::new();
        push_location(&mut text, &self.location);
        text.push_str(" (");
        text.push_str(lock_kind_name(self.kind));
        text.push_str("):");
        let ghost head = text@;
        proof {
            assert(head =~= location_text(self@.location) + " ("@ + lock_kind_text(self@.kind)
                + "):"@);
        }
        let mut i: usize = 0;
        while i < self.known_guards.len()
            invariant
                i <= self.known_guards.len(),
                text@ == head + guard_lines(self@.guards, i as nat),
            decreases self.known_guards.len() - i,
        {
            text.push_str("\n- ");
            push_guard(&mut text, &self.known_guards[i]);
            i += 1;
            proof {
                assert(text@ =~= head + guard_lines(self@.guards, i as nat));
            }
        }
        text
    }
}

} // verus!
