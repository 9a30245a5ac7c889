use vstd::prelude::*;
use vstd::string::*;

verus! {

/// Event counts accumulated within one tick (counts only, never key contents).
#[derive(Debug, Clone, Copy, PartialEq, Eq, Structural)]
pub struct Counts {
    pub keys: u32,
    pub mouse: u32,
    pub switches: u32,
    pub backspaces: u32,
}

impl Counts {
    /// The all-zero counts.
    pub open spec fn zero() -> Counts {
        Counts { keys: 0, mouse: 0, switches: 0, backspaces: 0 }
    }

    /// Counts after one more key press; a backspace counts as a key as well.
    pub open spec fn after_key(self, is_backspace: bool) -> Counts {
        Counts {
            keys: (self.keys + 1) as u32,
            backspaces: if is_backspace { (self.backspaces + 1) as u32 } else { self.backspaces },
            ..self
        }
    }

    /// Field-wise sum of two counts.
    pub open spec fn merged(self, other: Counts) -> Counts {
        Counts {
            keys: (self.keys + other.keys) as u32,
            mouse: (self.mouse + other.mouse) as u32,
            switches: (self.switches + other.switches) as u32,
            backspaces: (self.backspaces + other.backspaces) as u32,
        }
    }

    /// Every backspace is also a key.
    pub open spec fn backspaces_within_keys(self) -> bool {
        self.backspaces <= self.keys
    }

    pub fn add_key(&mut self, is_backspace: bool)
        requires
            old(self).keys < u32::MAX,
            is_backspace ==> old(self).backspaces < u32::MAX,
        ensures
            *final(self) == old(self).after_key(is_backspace),
    {
        self.keys = self.keys + 1;
        if is_backspace {
            self.backspaces = self.backspaces + 1;
        }
    }

    pub fn add_mouse_click(&mut self)
        requires
            old(self).mouse < u32::MAX,
        ensures
            *final(self) == (Counts { mouse: (old(self).mouse + 1) as u32, ..*old(self) }),
    {
        self.mouse = self.mouse + 1;
    }

    pub fn add_switch(&mut self)
        requires
            old(self).switches < u32::MAX,
        ensures
            *final(self) == (Counts { switches: (old(self).switches + 1) as u32, ..*old(self) }),
    {
        self.switches = self.switches + 1;
    }

    /// Adds another set of counts into this one.
    pub fn merge(&mut self, other: &Counts)
        requires
            old(self).keys + other.keys <= u32::MAX,
            old(self).mouse + other.mouse <= u32::MAX,
            old(self).switches + other.switches <= u32::MAX,
            old(self).backspaces + other.backspaces <= u32::MAX,
        ensures
            *final(self) == old(self).merged(*other),
    {
        self.keys = self.keys + other.keys;
        self.mouse = self.mouse + other.mouse;
        self.switches = self.switches + other.switches;
        self.backspaces = self.backspaces + other.backspaces;
    }

    /// Counts taken from raw 64-bit counters, each truncated to its low 32 bits.
    pub fn from_counters(keys: i64, mouse: i64, switches: i64, backspaces: i64) -> (c: Counts)
        ensures
            c.keys == keys as u32,
            c.mouse == mouse as u32,
            c.switches == switches as u32,
            c.backspaces == backspaces as u32,
    {
        Counts {
            keys: keys as u32,
            mouse: mouse as u32,
            switches: switches as u32,
            backspaces: backspaces as u32,
        }
    }

    /// Hands out the counts gathered since the last drain and starts again from zero.
    pub fn drain(&mut self) -> (out: Counts)
        ensures
            out == *old(self),
            *final(self) == Counts::zero(),
    {
        let out = *self;
        *self = Counts::default();
        out
    }
}

impl Default for Counts {
    fn default() -> (r: Counts)
        ensures
            r == Counts::zero(),
    {
        Counts { keys: 0, mouse: 0, switches: 0, backspaces: 0 }
    }
}


/// Every counting operation keeps the backspaces within the keys: a backspace is
/// always counted as a key too, merging adds both, and draining restarts at zero.
pub proof fn law_counts_keep_backspaces_within_keys(c: Counts, other: Counts, is_backspace: bool)
    requires
        c.backspaces_within_keys(),
        other.backspaces_within_keys(),
        c.keys < u32::MAX,
        c.keys + other.keys <= u32::MAX,
        c.backspaces + other.backspaces <= u32::MAX,
    ensures
        c.after_key(is_backspace).backspaces_within_keys(),
        (Counts { mouse: (c.mouse + 1) as u32, ..c }).backspaces_within_keys(),
        (Counts { switches: (c.switches + 1) as u32, ..c }).backspaces_within_keys(),
        c.merged(other).backspaces_within_keys(),
        Counts::zero().backspaces_within_keys(),
{
}

/// Draining hands out everything counted; merging the drained counts into a
/// fresh accumulator gives them back unchanged.
pub proof fn law_drained_counts_merge_back(c: Counts)
    ensures
        Counts::zero().merged(c) == c,
{
}

/// A reading of a monotonic clock, in nanoseconds since an arbitrary fixed origin
/// (the embedding application picks the origin, typically its own start).
#[derive(Debug, Clone, Copy, PartialEq, Eq, Structural)]
pub struct Moment {
    pub nanos: u64,
}

impl Moment {
    /// Nanoseconds from `earlier` to `self`, or zero when `earlier` is later.
    pub open spec fn spec_since(self, earlier: Moment) -> nat {
        if self.nanos >= earlier.nanos {
            (self.nanos - earlier.nanos) as nat
        } else {
            0
        }
    }

    pub fn saturating_since(&self, earlier: &Moment) -> (d: u64)
        ensures
            d == self.spec_since(*earlier),
    {
        if self.nanos >= earlier.nanos {
            self.nanos - earlier.nanos
        } else {
            0
        }
    }
}

/// The recorded last-input moment after an input at `now`: a clock reading
/// earlier than the recorded one leaves the record as it is.
pub open spec fn noted_input(last: Moment, now: Moment) -> Moment {
    if now.nanos >= last.nanos {
        now
    } else {
        last
    }
}

/// The recorded last input never moves back in time (a clock reading that went
/// backwards is ignored).
pub proof fn law_last_input_never_moves_back(last: Moment, now: Moment)
    ensures
        noted_input(last, now).nanos >= last.nanos,
{
}

/// An input resets idleness: right after an input at `now` (not earlier than
/// the last one), the idle time at `now` is zero, and at any later `then` it is
/// the time elapsed since `now`.
pub proof fn law_input_resets_idle(last: Moment, now: Moment, then: Moment)
    requires
        now.nanos >= last.nanos,
        then.nanos >= now.nanos,
    ensures
        now.spec_since(noted_input(last, now)) == 0,
        then.spec_since(noted_input(last, now)) == then.nanos - now.nanos,
{
}

/// Idle time derived from the moment of the last input.
#[derive(Debug, Clone, Copy)]
pub struct IdleTracker {
    last_input: Moment,
}

impl IdleTracker {
    pub closed spec fn spec_last_input(self) -> Moment {
        self.last_input
    }

    pub fn new(now: Moment) -> (t: IdleTracker)
        ensures
            t.spec_last_input() == now,
    {
        IdleTracker { last_input: now }
    }

    /// Records an input at `now` (any key or mouse activity resets idleness).
    pub fn note_input(&mut self, now: Moment)
        ensures
            final(self).spec_last_input() == noted_input(old(self).spec_last_input(), now),
    {
        if now.nanos >= self.last_input.nanos {
            self.last_input = now;
        }
    }

    /// Nanoseconds since the last input, zero if `now` precedes it.
    pub fn idle_since(&self, now: Moment) -> (d: u64)
        ensures
            d == now.spec_since(self.spec_last_input()),
    {
        now.saturating_since(&self.last_input)
    }

    pub fn last_input(&self) -> (m: Moment)
        ensures
            m == self.spec_last_input(),
    {
        self.last_input
    }
}

/// The lower-case form of a text, as Rust's `str::to_lowercase` gives it
/// (full Unicode case mapping).
pub uninterp spec fn lowercase(s: Seq<char>) -> Seq<char>;

/// Calls `str::to_lowercase`. Claimed: the result is the lower-case form of the
/// argument, a fixed function of the argument's characters (named `lowercase`);
/// what that mapping is character by character is not stated.
#[verifier::external_body]
fn to_lowercase(s: &str) -> (r: String)
    ensures
        r@ == lowercase(s@),
{
    s.to_lowercase()
}

/// `needle` occurs as a contiguous run of characters in `hay`.
pub open spec fn occurs_in(needle: Seq<char>, hay: Seq<char>) -> bool {
    exists|i: int|
        0 <= i && i + needle.len() <= hay.len() && #[trigger] hay.subrange(i, i + needle.len())
            == needle
}

fn chars_of(s: &str) -> (v: Vec<char>)
    ensures
        v@ == s@,
{
    let n = s.unicode_len();
    let mut v: Vec<char> = Vec::new();
    let mut i: usize = 0;
    while i < n
        invariant
            n == s@.len(),
            i <= n,
            v@ == s@.subrange(0, i as int),
        decreases n - i,
    {
        let c = s.get_char(i);
        v.push(c);
        i = i + 1;
        assert(v@ =~= s@.subrange(0, i as int));
    }
    v
}

/// Does `needle` equal `hay[at..at + needle.len()]`?
fn matches_at(hay: &Vec<char>, needle: &Vec<char>, at: usize) -> (r: bool)
    requires
        at + needle@.len() <= hay@.len(),
    ensures
        r == (hay@.subrange(at as int, at + needle@.len()) == needle@),
{
    let m = needle.len();
    let hl = hay.len();
    let mut j: usize = 0;
    while j < m
        invariant
            m == needle@.len(),
            hl == hay@.len(),
            at + m <= hay@.len(),
            j <= m,
            forall|k: int| 0 <= k < j ==> hay@[at + k] == needle@[k],
        decreases m - j,
    {
        if hay[at + j] != needle[j] {
            assert(hay@.subrange(at as int, at + m)[j as int] != needle@[j as int]);
            return false;
        }
        j = j + 1;
    }
    assert(hay@.subrange(at as int, at + m) =~= needle@);
    true
}

/// Substring test on characters: does `needle` occur in `hay`?
pub fn contains_text(hay: &str, needle: &str) -> (r: bool)
    ensures
        r == occurs_in(needle@, hay@),
{
    let h = chars_of(hay);
    let n = chars_of(needle);
    if n.len() == 0 {
        assert(hay@.subrange(0, 0 + needle@.len() as int) =~= needle@);
        return true;
    }
    if n.len() > h.len() {
        return false;
    }
    let last = h.len() - n.len();
    let mut at: usize = 0;
    while at <= last
        invariant
            h@ == hay@,
            n@ == needle@,
            last + n@.len() == h@.len(),
            n@.len() > 0,
            h@.len() <= usize::MAX,
            forall|i: int| 0 <= i < at ==> #[trigger] hay@.subrange(i, i + needle@.len()) != needle@,
        decreases last + 1 - at,
    {
        if matches_at(&h, &n, at) {
            return true;
        }
        at = at + 1;
    }
    assert forall|i: int| 0 <= i && i + needle@.len() <= hay@.len() implies #[trigger] hay@.subrange(
        i,
        i + needle@.len(),
    ) != needle@ by {
        assert(i < at);
    }
    false
}

/// A title matches a target when the target is not empty and its lower-case form
/// occurs in the title's lower-case form.
pub open spec fn spec_title_matches(title: Seq<char>, target: Seq<char>) -> bool {
    target.len() > 0 && occurs_in(lowercase(target), lowercase(title))
}

/// An empty target never matches any title.
pub proof fn law_empty_target_never_matches(title: Seq<char>)
    ensures
        !spec_title_matches(title, Seq::<char>::empty()),
{
}

/// `needle` stands in `hay` from position `at` on, character for character.
pub open spec fn stands_at(hay: Seq<char>, needle: Seq<char>, at: int) -> bool {
    0 <= at && at + needle.len() <= hay.len() && forall|k: int|
        0 <= k < needle.len() ==> #[trigger] hay[at + k] == needle[k]
}

/// A non-empty target matches wherever its lower-case form stands in the title's
/// lower-case form: at the start, at the end or anywhere in between.
pub proof fn law_title_matches_at_any_position(title: Seq<char>, target: Seq<char>, at: int)
    requires
        target.len() > 0,
        stands_at(lowercase(title), lowercase(target), at),
    ensures
        spec_title_matches(title, target),
{
    let h = lowercase(title);
    let n = lowercase(target);
    assert forall|k: int| 0 <= k < n.len() implies #[trigger] h.subrange(at, at + n.len())[k]
        == n[k] by {
        assert(h[at + k] == n[k]);
    }
    assert(h.subrange(at, at + n.len()) =~= n);
}

/// A match always has a witness: the target is not empty and its lower-case form
/// stands at some position of the title's lower-case form, character for character.
pub proof fn law_title_match_has_a_position(title: Seq<char>, target: Seq<char>)
    requires
        spec_title_matches(title, target),
    ensures
        target.len() > 0,
        exists|at: int| #[trigger] stands_at(lowercase(title), lowercase(target), at),
{
    let h = lowercase(title);
    let n = lowercase(target);
    let at = choose|i: int| 0 <= i && i + n.len() <= h.len() && #[trigger] h.subrange(i, i + n.len()) == n;
    assert forall|k: int| 0 <= k < n.len() implies #[trigger] h[at + k] == n[k] by {
        assert(h.subrange(at, at + n.len())[k] == h[at + k]);
    }
    assert(stands_at(h, n, at));
}

/// Case-insensitive substring match of a window title against the target text.
/// An empty target stands for "no target" and never matches.
pub fn title_matches(title: &str, target: &str) -> (r: bool)
    ensures
        r == spec_title_matches(title@, target@),
{
    if target.is_empty() {
        return false;
    }
    let title_lower = to_lowercase(title);
    let target_lower = to_lowercase(target);
    contains_text(title_lower.as_str(), target_lower.as_str())
}


/// At most this many keystroke moments are kept between drains.
pub const MAX_KEYS: usize = 64;

/// Gaps between neighbouring moments, in nanoseconds (zero where the clock went back).
pub open spec fn adjacent_gaps(times: Seq<Moment>) -> Seq<u64> {
    Seq::new(
        if times.len() >= 1 { (times.len() - 1) as nat } else { 0 },
        |i: int| times[i + 1].spec_since(times[i]) as u64,
    )
}

/// The kept moments after recording `t`: when already full, the oldest is dropped.
pub open spec fn pushed_window(times: Seq<Moment>, t: Moment) -> Seq<Moment> {
    if times.len() >= MAX_KEYS {
        times.drop_first().push(t)
    } else {
        times.push(t)
    }
}

/// The keystroke window never holds more than `MAX_KEYS` moments, always ends
/// with the newest one, and keeps the older ones in their order.
pub proof fn law_key_window_bounded_and_recent(times: Seq<Moment>, t: Moment)
    requires
        times.len() <= MAX_KEYS,
    ensures
        pushed_window(times, t).len() <= MAX_KEYS,
        pushed_window(times, t).last() == t,
        pushed_window(times, t).drop_last() == (if times.len() >= MAX_KEYS {
            times.drop_first()
        } else {
            times
        }),
{
    if times.len() >= MAX_KEYS {
        assert(times.drop_first().push(t).drop_last() =~= times.drop_first());
    } else {
        assert(times.push(t).drop_last() =~= times);
    }
}

/// A drain gives one gap fewer than there are kept moments (none for fewer than
/// two), so never more than `MAX_KEYS - 1`.
pub proof fn law_gap_count(times: Seq<Moment>)
    requires
        times.len() <= MAX_KEYS,
    ensures
        adjacent_gaps(times).len() == (if times.len() >= 2 { times.len() - 1 } else { 0 }),
        adjacent_gaps(times).len() < MAX_KEYS,
{
}

/// Keystroke moments, from which the gaps between neighbouring keystrokes are
/// produced; only the most recent `MAX_KEYS` are kept.
#[derive(Debug)]
pub struct KeyIntervals {
    times: Vec<Moment>,
}

impl KeyIntervals {
    #[verifier::type_invariant]
    spec fn bounded(self) -> bool {
        self.times@.len() <= MAX_KEYS
    }

    pub closed spec fn spec_times(self) -> Seq<Moment> {
        self.times@
    }

    pub fn new() -> (k: KeyIntervals)
        ensures
            k.spec_times() == Seq::<Moment>::empty(),
    {
        KeyIntervals { times: Vec::new() }
    }

    /// Records a keystroke at `t`.
    pub fn push(&mut self, t: Moment)
        ensures
            final(self).spec_times() == pushed_window(old(self).spec_times(), t),
    {
        proof {
            use_type_invariant(&*self);
        }
        let mut times = Vec::new();
        std::mem::swap(&mut times, &mut self.times);
        if times.len() >= MAX_KEYS {
            times.remove(0);
        }
        times.push(t);
        self.times = times;
    }

    /// Gaps between neighbouring recorded keystrokes (nanoseconds); empties the record.
    pub fn drain_intervals(&mut self) -> (out: Vec<u64>)
        ensures
            out@ == adjacent_gaps(old(self).spec_times()),
            final(self).spec_times() == Seq::<Moment>::empty(),
    {
        let n = self.times.len();
        let mut out: Vec<u64> = Vec::new();
        let mut i: usize = 1;
        while i < n
            invariant
                n == self.times@.len(),
                1 <= i,
                i <= n || i == 1,
                out@ == adjacent_gaps(self.times@).subrange(0, (i - 1) as int),
            decreases n - i,
        {
            let gap = self.times[i].saturating_since(&self.times[i - 1]);
            out.push(gap);
            i = i + 1;
            assert(out@ =~= adjacent_gaps(self.times@).subrange(0, (i - 1) as int));
        }
        assert(out@ =~= adjacent_gaps(self.times@));
        self.times = Vec::new();
        out
    }
}

impl Default for KeyIntervals {
    fn default() -> (k: KeyIntervals)
        ensures
            k.spec_times() == Seq::<Moment>::empty(),
    {
        KeyIntervals::new()
    }
}

} // verus!
