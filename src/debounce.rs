use vstd::prelude::*;

verus! {

/// Number of `true` values in `s`.
pub open spec fn count_true(s: Seq<bool>) -> nat
    decreases s.len(),
{
    if s.len() == 0 {
        0
    } else {
        count_true(s.drop_last()) + if s.last() { 1nat } else { 0nat }
    }
}

/// What a window of capacity `cap` holds after the insertions `h`, oldest first:
/// the last `cap` values of `h`, with `false` in front where fewer were inserted.
pub open spec fn recent(h: Seq<bool>, cap: nat) -> Seq<bool> {
    Seq::new(
        cap,
        |i: int|
            {
                let j = h.len() - cap + i;
                if j >= 0 {
                    h[j]
                } else {
                    false
                }
            },
    )
}

/// Detection is sustained after the insertions `h` when at least `cap` values were
/// inserted and the last `cap` of them are all `true`.
pub open spec fn sustained(h: Seq<bool>, cap: nat) -> bool {
    &&& h.len() >= cap
    &&& forall|k: int| h.len() - cap <= k < h.len() ==> #[trigger] h[k]
}

/// Position in the ring of the `i`-th oldest value when the cursor is at `c`.
pub open spec fn ring_pos(c: int, i: int, cap: int) -> int {
    if c + i < cap {
        c + i
    } else {
        c + i - cap
    }
}

proof fn lemma_count_le(s: Seq<bool>)
    ensures
        count_true(s) <= s.len(),
    decreases s.len(),
{
    if s.len() > 0 {
        lemma_count_le(s.drop_last());
    }
}

proof fn lemma_count_update(s: Seq<bool>, i: int, b: bool)
    requires
        0 <= i < s.len(),
    ensures
        count_true(s.update(i, b)) + (if s[i] { 1int } else { 0int }) == count_true(s) + (if b {
            1int
        } else {
            0int
        }),
    decreases s.len(),
{
    let t = s.update(i, b);
    if i == s.len() - 1 {
        assert(t.drop_last() =~= s.drop_last());
    } else {
        assert(t.drop_last() =~= s.drop_last().update(i, b));
        lemma_count_update(s.drop_last(), i, b);
    }
}

proof fn lemma_count_full(s: Seq<bool>)
    ensures
        count_true(s) == s.len() <==> forall|k: int| 0 <= k < s.len() ==> #[trigger] s[k],
    decreases s.len(),
{
    if s.len() > 0 {
        let d = s.drop_last();
        lemma_count_full(d);
        lemma_count_le(d);
        if count_true(s) == s.len() {
            assert forall|k: int| 0 <= k < s.len() implies #[trigger] s[k] by {
                if k < s.len() - 1 {
                    assert(d[k] == s[k]);
                }
            }
        }
        if forall|k: int| 0 <= k < s.len() ==> #[trigger] s[k] {
            assert forall|k: int| 0 <= k < d.len() implies #[trigger] d[k] by {
                assert(s[k]);
            }
        }
    }
}

proof fn lemma_count_push_false(s: Seq<bool>)
    ensures
        count_true(s.push(false)) == count_true(s),
{
    assert(s.push(false).drop_last() =~= s);
}

/// A fixed-capacity ring of the most recent detection results of one channel.
///
/// The ring keeps a running count of its `true` slots, so asking whether the
/// detection is sustained takes constant time.
pub struct DebounceWindow {
    slots: Vec<bool>,
    cursor: usize,
    true_count: usize,
    history: Ghost<Seq<bool>>,
}

impl View for DebounceWindow {
    type V = Seq<bool>;

    /// The values inserted since the window was created or last reset.
    closed spec fn view(&self) -> Seq<bool> {
        self.history@
    }
}

/// A vector of `n` times `false`.
fn all_false(n: usize) -> (r: Vec<bool>)
    ensures
        r@ == Seq::new(n as nat, |i: int| false),
        count_true(r@) == 0,
{
    let mut r: Vec<bool> = Vec::new();
    let mut k: usize = 0;
    while k < n
        invariant
            k <= n,
            r@ == Seq::new(k as nat, |i: int| false),
            count_true(r@) == 0,
        decreases n - k,
    {
        proof {
            lemma_count_push_false(r@);
        }
        r.push(false);
        k = k + 1;
        assert(r@ =~= Seq::new(k as nat, |i: int| false));
    }
    r
}

impl DebounceWindow {
    /// The number of slots.
    pub closed spec fn cap(&self) -> nat {
        self.slots@.len()
    }

    /// The slots of the ring, oldest value first.
    pub open spec fn contents(&self) -> Seq<bool> {
        recent(self@, self.cap())
    }

    pub closed spec fn wf(&self) -> bool {
        &&& self.slots@.len() > 0
        &&& self.cursor < self.slots@.len()
        &&& self.true_count == count_true(self.slots@)
        &&& forall|i: int|
            0 <= i < self.slots@.len() ==> self.slots@[ring_pos(
                self.cursor as int,
                i,
                self.slots@.len() as int,
            )] == #[trigger] recent(self.history@, self.slots@.len())[i]
    }

    /// A window of `capacity` slots, all `false`.
    pub fn new(capacity: usize) -> (w: DebounceWindow)
        requires
            capacity > 0,
        ensures
            w.wf(),
            w.cap() == capacity,
            w@ == Seq::<bool>::empty(),
    {
        let slots = all_false(capacity);
        let w = DebounceWindow { slots, cursor: 0, true_count: 0, history: Ghost(Seq::empty()) };
        assert forall|i: int| 0 <= i < capacity implies w.slots@[ring_pos(0, i, capacity as int)]
            == #[trigger] recent(w.history@, capacity as nat)[i] by {}
        w
    }

    /// The number of slots.
    pub fn capacity(&self) -> (r: usize)
        requires
            self.wf(),
        ensures
            r == self.cap(),
    {
        self.slots.len()
    }

    /// Writes `detected` at the cursor, overwriting the oldest value, and advances
    /// the cursor by one place round the ring.
    pub fn push(&mut self, detected: bool)
        requires
            old(self).wf(),
        ensures
            final(self).wf(),
            final(self).cap() == old(self).cap(),
            final(self)@ == old(self)@.push(detected),
    {
        let ghost old_slots = self.slots@;
        let ghost h = self.history@;
        let ghost cap = self.slots@.len();
        let c = self.cursor;
        let n = self.slots.len();
        let prev = self.slots[c];
        proof {
            lemma_count_update(old_slots, c as int, detected);
            lemma_count_le(old_slots);
            lemma_count_le(old_slots.update(c as int, detected));
        }
        self.slots.set(c, detected);
        if prev && !detected {
            self.true_count = self.true_count - 1;
        } else if detected && !prev {
            self.true_count = self.true_count + 1;
        }
        self.cursor = if c + 1 == n {
            0
        } else {
            c + 1
        };
        self.history = Ghost(h.push(detected));
        proof {
            let nh = h.push(detected);
            assert forall|i: int| 0 <= i < cap implies self.slots@[ring_pos(
                self.cursor as int,
                i,
                cap as int,
            )] == #[trigger] recent(nh, cap)[i] by {
                if i < cap - 1 {
                    assert(ring_pos(self.cursor as int, i, cap as int) == ring_pos(
                        c as int,
                        i + 1,
                        cap as int,
                    ));
                    assert(recent(nh, cap)[i] == recent(h, cap)[i + 1]);
                } else {
                    assert(ring_pos(self.cursor as int, i, cap as int) == c);
                }
            }
        }
    }

    /// Whether the last `capacity` insertions were all `true`.
    pub fn triggered(&self) -> (r: bool)
        requires
            self.wf(),
        ensures
            r == sustained(self@, self.cap()),
    {
        proof {
            let s = self.slots@;
            let cap = s.len();
            let h = self.history@;
            let rc = recent(h, cap);
            lemma_count_full(s);
            let c = self.cursor as int;
            if count_true(s) == cap {
                assert forall|k: int| h.len() - cap <= k < h.len() implies #[trigger] h[k] by {
                    let i = k - (h.len() - cap);
                    assert(rc[i] == h[k]);
                    assert(s[ring_pos(c, i, cap as int)]);
                }
                if h.len() < cap {
                    assert(s[ring_pos(c, 0, cap as int)]);
                    assert(rc[0] == false);
                }
            }
            if sustained(h, cap) {
                assert forall|j: int| 0 <= j < cap implies #[trigger] s[j] by {
                    let i = if j >= c {
                        j - c
                    } else {
                        j + cap - c
                    };
                    assert(ring_pos(c, i, cap as int) == j);
                    assert(rc[i] == h[h.len() - cap + i]);
                }
            }
        }
        self.true_count == self.slots.len()
    }

    /// Clears every slot to `false` and forgets the earlier insertions.
    pub fn reset(&mut self)
        requires
            old(self).wf(),
        ensures
            final(self).wf(),
            final(self).cap() == old(self).cap(),
            final(self)@ == Seq::<bool>::empty(),
            final(self).contents() == Seq::new(old(self).cap(), |i: int| false),
    {
        let n = self.slots.len();
        *self = DebounceWindow::new(n);
        assert(self.contents() =~= Seq::new(n as nat, |i: int| false));
    }
}

/// A detector channel whose results are debounced.
#[derive(Clone, Copy, Debug, PartialEq, Eq, Structural)]
pub enum Channel {
    FullBody,
    Face,
}

/// One debounce window per detector channel, all of the same capacity.
pub struct DebounceController {
    fullbody: DebounceWindow,
    face: DebounceWindow,
}

impl DebounceController {
    pub closed spec fn wf(&self) -> bool {
        &&& self.fullbody.wf()
        &&& self.face.wf()
        &&& self.fullbody.cap() == self.face.cap()
    }

    /// The capacity of each window.
    pub closed spec fn cap(&self) -> nat {
        self.fullbody.cap()
    }

    /// The results recorded on `channel` since creation or the last reset.
    pub closed spec fn history(&self, channel: Channel) -> Seq<bool> {
        match channel {
            Channel::FullBody => self.fullbody@,
            Channel::Face => self.face@,
        }
    }

    /// Some channel has seen a sustained detection.
    pub open spec fn is_triggered(&self) -> bool {
        sustained(self.history(Channel::FullBody), self.cap()) || sustained(
            self.history(Channel::Face),
            self.cap(),
        )
    }

    /// Both windows are empty: every slot holds `false`.
    pub open spec fn is_cleared(&self) -> bool {
        &&& self.history(Channel::FullBody) == Seq::<bool>::empty()
        &&& self.history(Channel::Face) == Seq::<bool>::empty()
    }

    /// Windows of `window_size` slots, all `false`.
    pub fn new(window_size: usize) -> (d: DebounceController)
        requires
            window_size > 0,
        ensures
            d.wf(),
            d.cap() == window_size,
            d.is_cleared(),
    {
        DebounceController {
            fullbody: DebounceWindow::new(window_size),
            face: DebounceWindow::new(window_size),
        }
    }

    /// Inserts `detected` into the window of `channel`.
    pub fn record(&mut self, channel: Channel, detected: bool)
        requires
            old(self).wf(),
        ensures
            final(self).wf(),
            final(self).cap() == old(self).cap(),
            final(self).history(channel) == old(self).history(channel).push(detected),
            forall|c: Channel| c != channel ==> final(self).history(c) == old(self).history(c),
    {
        match channel {
            Channel::FullBody => self.fullbody.push(detected),
            Channel::Face => self.face.push(detected),
        }
    }

    /// Whether any channel's window is all `true`.
    pub fn triggered(&self) -> (r: bool)
        requires
            self.wf(),
        ensures
            r == self.is_triggered(),
    {
        self.fullbody.triggered() || self.face.triggered()
    }

    /// Clears both windows to all `false`.
    pub fn reset(&mut self)
        requires
            old(self).wf(),
        ensures
            final(self).wf(),
            final(self).cap() == old(self).cap(),
            final(self).is_cleared(),
    {
        self.fullbody.reset();
        self.face.reset();
    }
}

} // verus!
