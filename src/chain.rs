use vstd::prelude::*;

use crate::error::{Result, SignalProtocolError};

verus! {

/// How far ahead of the next expected counter a message may be.
pub const MAX_FORWARD_JUMPS: u64 = 25000;

/// How many keys of skipped messages a chain keeps.
pub const MAX_MESSAGE_KEYS: usize = 2000;

/// Which message key serves a received counter.
#[derive(Debug, Clone, Copy, PartialEq, Eq, Structural)]
pub enum Delivery {
    /// The key kept for a skipped counter; it is used up.
    Cached,
    /// The chain is advanced to the counter; the keys of the counters
    /// passed over are kept.
    Fresh,
}

/// The counters from `from` up to, but not including, `to`.
pub open spec fn counters(from: int, to: int) -> Seq<u32> {
    Seq::new((to - from) as nat, |i: int| (from + i) as u32)
}

/// The last `n` elements of `s`, or all of them when there are fewer.
pub open spec fn keep_last(s: Seq<u32>, n: int) -> Seq<u32> {
    if s.len() > n {
        s.subrange(s.len() - n, s.len() as int)
    } else {
        s
    }
}

/// Whether `next` and `skipped` describe a chain: the skipped counters
/// rise strictly, are all behind `next`, and are at most
/// `MAX_MESSAGE_KEYS`.
pub open spec fn window_wf(next: int, skipped: Seq<u32>) -> bool {
    &&& 0 <= next <= u32::MAX + 1
    &&& skipped.len() <= MAX_MESSAGE_KEYS
    &&& forall|i: int, j: int| 0 <= i < j < skipped.len() ==> skipped[i] < skipped[j]
    &&& forall|i: int| 0 <= i < skipped.len() ==> skipped[i] < next
}

/// What receiving `counter` does to a chain whose next counter is `next`
/// and whose kept skipped counters are `skipped`: the key that serves it,
/// and the chain after.
pub open spec fn receive_spec(next: int, skipped: Seq<u32>, counter: u32) -> Result<
    (Delivery, int, Seq<u32>),
> {
    if counter < next {
        if skipped.contains(counter) {
            Ok((Delivery::Cached, next, skipped.remove(skipped.index_of(counter))))
        } else {
            Err(SignalProtocolError::ReplayOrOrderingViolation)
        }
    } else if counter - next > MAX_FORWARD_JUMPS {
        Err(SignalProtocolError::ReplayOrOrderingViolation)
    } else {
        Ok(
            (
                Delivery::Fresh,
                counter + 1,
                keep_last(skipped + counters(next, counter as int), MAX_MESSAGE_KEYS as int),
            ),
        )
    }
}

/// The receiving position of a message chain: the next counter that the
/// chain key would yield, and the counters passed over whose keys are kept.
#[derive(Debug, Clone)]
pub struct ChainWindow {
    next: u64,
    skipped: Vec<u32>,
}

impl ChainWindow {
    /// The next counter that the chain key would yield.
    pub closed spec fn next(&self) -> int {
        self.next as int
    }

    /// The skipped counters whose keys are kept, oldest first.
    pub closed spec fn skipped(&self) -> Seq<u32> {
        self.skipped@
    }

    /// Well-formed: see [`window_wf`].
    pub open spec fn wf(&self) -> bool {
        window_wf(self.next(), self.skipped())
    }

    /// A chain whose next counter is `start`, with nothing skipped.
    pub fn new(start: u32) -> (r: ChainWindow)
        ensures
            r.next() == start,
            r.skipped() == Seq::<u32>::empty(),
            r.wf(),
    {
        ChainWindow { next: start as u64, skipped: Vec::new() }
    }

    /// The next counter that the chain key would yield.
    pub fn next_counter(&self) -> (r: u64)
        ensures
            r == self.next(),
    {
        self.next
    }

    /// Whether the key of `counter` is kept.
    pub fn has_skipped(&self, counter: u32) -> (r: bool)
        ensures
            r == self.skipped().contains(counter),
    {
        self.find(counter).is_some()
    }

    fn find(&self, counter: u32) -> (r: Option<usize>)
        ensures
            r is None <==> !self.skipped@.contains(counter),
            r matches Some(i) ==> i < self.skipped@.len() && self.skipped@[i as int] == counter,
    {
        let mut i: usize = 0;
        while i < self.skipped.len()
            invariant
                i <= self.skipped@.len(),
                forall|j: int| 0 <= j < i ==> self.skipped@[j] != counter,
            decreases self.skipped@.len() - i,
        {
            if self.skipped[i] == counter {
                return Some(i);
            }
            i = i + 1;
        }
        None
    }

    /// Receives the message with `counter`: a skipped counter whose key is
    /// kept uses that key up; a counter at or ahead of the next one, by at
    /// most `MAX_FORWARD_JUMPS`, advances the chain past it and keeps the
    /// keys passed over (the oldest go beyond `MAX_MESSAGE_KEYS`); any
    /// other counter is a replay or lies too far ahead, and changes nothing.
    pub fn receive(&mut self, counter: u32) -> (r: Result<Delivery>)
        requires
            old(self).wf(),
        ensures
            final(self).wf(),
            match receive_spec(old(self).next(), old(self).skipped(), counter) {
                Ok((d, n, s)) => r == Ok::<Delivery, SignalProtocolError>(d) && final(self).next()
                    == n && final(self).skipped() == s,
                Err(e) => r == Err::<Delivery, _>(e) && final(self).next() == old(self).next()
                    && final(self).skipped() == old(self).skipped(),
            },
    {
        if (counter as u64) < self.next {
            match self.find(counter) {
                Some(i) => {
                    proof {
                        let s = self.skipped@;
                        assert(s.contains(counter));
                        let k: int = s.index_of(counter);
                        if k != i {
                            if k < i {
                                assert(s[k] < s[i as int]);
                            } else {
                                assert(s[i as int] < s[k]);
                            }
                        }
                    }
                    self.skipped.remove(i);
                    return Ok(Delivery::Cached);
                },
                None => {
                    return Err(SignalProtocolError::ReplayOrOrderingViolation);
                },
            }
        }
        if counter as u64 - self.next > MAX_FORWARD_JUMPS {
            return Err(SignalProtocolError::ReplayOrOrderingViolation);
        }
        let ghost old_skipped = self.skipped@;
        let ghost start = self.next as int;
        let mut k: u64 = self.next;
        while k < counter as u64
            invariant
                start <= k <= counter,
                start == old(self).next,
                self.skipped@ == old_skipped + counters(start, k as int),
                window_wf(start, old_skipped),
            decreases counter - k,
        {
            self.skipped.push(k as u32);
            k = k + 1;
            assert(self.skipped@ =~= old_skipped + counters(start, k as int));
        }
        let ghost all = self.skipped@;
        let len: usize = self.skipped.len();
        if len > MAX_MESSAGE_KEYS {
            let kept = crate::chain::tail(&self.skipped, len - MAX_MESSAGE_KEYS);
            self.skipped = kept;
        }
        self.next = counter as u64 + 1;
        proof {
            assert(self.skipped@ =~= keep_last(all, MAX_MESSAGE_KEYS as int));
            assert forall|i: int, j: int|
                0 <= i < j < all.len() implies all[i] < all[j] by {
                if j >= old_skipped.len() && i < old_skipped.len() {
                    assert(all[i] == old_skipped[i]);
                }
            }
            assert forall|i: int| 0 <= i < all.len() implies all[i] < counter + 1 by {
                if i < old_skipped.len() {
                    assert(all[i] == old_skipped[i]);
                }
            }
        }
        Ok(Delivery::Fresh)
    }
}

/// The elements of `v` from position `from` on.
fn tail(v: &Vec<u32>, from: usize) -> (r: Vec<u32>)
    requires
        from <= v@.len(),
    ensures
        r@ == v@.subrange(from as int, v@.len() as int),
{
    let mut out: Vec<u32> = Vec::new();
    let mut i: usize = from;
    while i < v.len()
        invariant
            from <= i <= v@.len(),
            out@ == v@.subrange(from as int, i as int),
        decreases v@.len() - i,
    {
        out.push(v[i]);
        i = i + 1;
        assert(out@ =~= v@.subrange(from as int, i as int));
    }
    out
}

/// Receiving a counter keeps a chain well-formed and never moves its next
/// counter back.
pub proof fn lemma_receive_keeps_chain(next: int, skipped: Seq<u32>, counter: u32)
    requires
        window_wf(next, skipped),
    ensures
        receive_spec(next, skipped, counter) matches Ok((_, n, s)) ==> window_wf(n, s) && n
            >= next,
{
    if counter < next {
        if skipped.contains(counter) {
            let k: int = skipped.index_of(counter);
            let s = skipped.remove(k);
            assert forall|i: int, j: int| 0 <= i < j < s.len() implies s[i] < s[j] by {
                let oi: int = if i < k { i } else { i + 1 };
                let oj: int = if j < k { j } else { j + 1 };
                assert(s[i] == skipped[oi] && s[j] == skipped[oj]);
            }
            assert forall|i: int| 0 <= i < s.len() implies s[i] < next by {
                let oi: int = if i < k { i } else { i + 1 };
                assert(s[i] == skipped[oi]);
            }
        }
    } else if counter - next <= MAX_FORWARD_JUMPS {
        let all = skipped + counters(next, counter as int);
        assert forall|i: int, j: int| 0 <= i < j < all.len() implies all[i] < all[j] by {
            if i < skipped.len() {
                assert(all[i] == skipped[i]);
            }
        }
        assert forall|i: int| 0 <= i < all.len() implies all[i] < counter + 1 by {
            if i < skipped.len() {
                assert(all[i] == skipped[i]);
            }
        }
        let s = keep_last(all, MAX_MESSAGE_KEYS as int);
        if all.len() > MAX_MESSAGE_KEYS {
            let d: int = all.len() - MAX_MESSAGE_KEYS;
            assert forall|i: int, j: int| 0 <= i < j < s.len() implies s[i] < s[j] by {
                assert(s[i] == all[i + d] && s[j] == all[j + d]);
            }
            assert forall|i: int| 0 <= i < s.len() implies s[i] < counter + 1 by {
                assert(s[i] == all[i + d]);
            }
        }
    }
}

/// A counter that has been received once is refused when it comes again.
pub proof fn lemma_no_replay(next: int, skipped: Seq<u32>, counter: u32)
    requires
        window_wf(next, skipped),
        receive_spec(next, skipped, counter) is Ok,
    ensures
        receive_spec(next, skipped, counter) matches Ok((_, n, s)) && receive_spec(n, s, counter)
            == Err::<(Delivery, int, Seq<u32>), _>(SignalProtocolError::ReplayOrOrderingViolation),
{
    lemma_receive_keeps_chain(next, skipped, counter);
    if counter < next {
        let k: int = skipped.index_of(counter);
        let s = skipped.remove(k);
        if s.contains(counter) {
            let i: int = choose|i: int| 0 <= i < s.len() && s[i] == counter;
            let oi: int = if i < k { i } else { i + 1 };
            assert(skipped[oi] == counter);
            if oi < k {
                assert(skipped[oi] < skipped[k]);
            } else {
                assert(skipped[k] < skipped[oi]);
            }
        }
    } else {
        let all = skipped + counters(next, counter as int);
        let s = keep_last(all, MAX_MESSAGE_KEYS as int);
        if s.contains(counter) {
            let i: int = choose|i: int| 0 <= i < s.len() && s[i] == counter;
            if all.len() > MAX_MESSAGE_KEYS {
                let d: int = all.len() - MAX_MESSAGE_KEYS;
                assert(s[i] == all[i + d]);
                if i + d < skipped.len() {
                    assert(all[i + d] == skipped[i + d]);
                }
            } else {
                if i < skipped.len() {
                    assert(all[i] == skipped[i]);
                }
            }
        }
    }
}

/// Messages may come out of order within the bounds: once a counter
/// `later` has been received, an earlier counter `earlier` that it passed
/// over, at most `MAX_MESSAGE_KEYS` behind it, is served by its kept key.
pub proof fn lemma_bounded_reorder(next: int, skipped: Seq<u32>, later: u32, earlier: u32)
    requires
        window_wf(next, skipped),
        next <= earlier < later,
        later - next <= MAX_FORWARD_JUMPS,
        later - earlier <= MAX_MESSAGE_KEYS,
    ensures
        receive_spec(next, skipped, later) matches Ok((d, n, s)) && d == Delivery::Fresh && (
        receive_spec(n, s, earlier) matches Ok((d2, _, _)) && d2 == Delivery::Cached),
{
    let all = skipped + counters(next, later as int);
    let s = keep_last(all, MAX_MESSAGE_KEYS as int);
    let p: int = skipped.len() + (earlier - next);
    assert(all[p] == earlier);
    if all.len() > MAX_MESSAGE_KEYS {
        let d: int = all.len() - MAX_MESSAGE_KEYS;
        assert(s[p - d] == earlier);
    } else {
        assert(s[p] == earlier);
    }
    assert(s.contains(earlier));
}

/// A counter more than `MAX_FORWARD_JUMPS` ahead of the next one is
/// refused, and so is a counter that was passed over more than
/// `MAX_MESSAGE_KEYS` counters before a later one was received.
pub proof fn lemma_beyond_bounds_refused(next: int, skipped: Seq<u32>, later: u32, earlier: u32)
    requires
        window_wf(next, skipped),
        next <= earlier < later,
        later - next <= MAX_FORWARD_JUMPS,
        later - earlier > MAX_MESSAGE_KEYS,
    ensures
        forall|c: u32|
            c - next > MAX_FORWARD_JUMPS ==> #[trigger] receive_spec(next, skipped, c) == Err::<
                (Delivery, int, Seq<u32>),
                _,
            >(SignalProtocolError::ReplayOrOrderingViolation),
        receive_spec(next, skipped, later) matches Ok((_, n, s)) && receive_spec(n, s, earlier)
            == Err::<(Delivery, int, Seq<u32>), _>(SignalProtocolError::ReplayOrOrderingViolation),
{
    let all = skipped + counters(next, later as int);
    let s = keep_last(all, MAX_MESSAGE_KEYS as int);
    assert(all.len() > MAX_MESSAGE_KEYS);
    let d: int = all.len() - MAX_MESSAGE_KEYS;
    if s.contains(earlier) {
        let i: int = choose|i: int| 0 <= i < s.len() && s[i] == earlier;
        assert(s[i] == all[i + d]);
        assert(i + d >= skipped.len());
    }
}

/// Whether delivering the counters of `order`, one after another, to a
/// chain whose next counter is `next` and whose kept skipped counters are
/// `skipped`, serves every one of them.
pub open spec fn delivers_all(next: int, skipped: Seq<u32>, order: Seq<u32>) -> bool
    decreases order.len(),
{
    if order.len() == 0 {
        true
    } else {
        match receive_spec(next, skipped, order[0]) {
            Ok((_, n, s)) => delivers_all(n, s, order.drop_first()),
            Err(_) => false,
        }
    }
}

/// A strictly rising sequence of counters from `low` on, all below `high`,
/// has at most `high - low` elements.
proof fn lemma_rising_len(s: Seq<u32>, low: int, high: int)
    requires
        low <= high,
        forall|i: int, j: int| 0 <= i < j < s.len() ==> s[i] < s[j],
        forall|i: int| 0 <= i < s.len() ==> low <= #[trigger] s[i] < high,
    ensures
        s.len() <= high - low,
    decreases s.len(),
{
    if s.len() > 0 {
        let t = s.drop_last();
        assert forall|i: int| 0 <= i < t.len() implies low <= #[trigger] t[i] < s.last() by {
            assert(t[i] == s[i]);
            assert(s[i] < s[s.len() - 1]);
        }
        assert forall|i: int, j: int| 0 <= i < j < t.len() implies t[i] < t[j] by {
            assert(t[i] == s[i] && t[j] == s[j]);
        }
        lemma_rising_len(t, low, s.last() as int);
        assert(low <= s[s.len() - 1] < high);
    }
}

/// Every message of a run is served whatever the order of delivery:
/// `order` lists, each at most once, counters of the `span` counters from
/// `start`, and `span` is within both bounds.
pub proof fn lemma_any_order_within_bounds(start: u32, span: int, order: Seq<u32>)
    requires
        0 <= span <= MAX_MESSAGE_KEYS,
        span <= MAX_FORWARD_JUMPS + 1,
        start + span <= u32::MAX,
        order.no_duplicates(),
        forall|i: int| 0 <= i < order.len() ==> start <= #[trigger] order[i] < start + span,
    ensures
        delivers_all(start as int, Seq::empty(), order),
{
    lemma_deliveries(start as int, span, start as int, Seq::empty(), Set::empty(), order);
}

proof fn lemma_deliveries(
    start: int,
    span: int,
    next: int,
    skipped: Seq<u32>,
    delivered: Set<u32>,
    order: Seq<u32>,
)
    requires
        0 <= span <= MAX_MESSAGE_KEYS,
        span <= MAX_FORWARD_JUMPS + 1,
        0 <= start,
        start + span <= u32::MAX,
        start <= next <= start + span,
        window_wf(next, skipped),
        forall|x: u32| #[trigger] delivered.contains(x) ==> x < next,
        forall|x: u32|
            #[trigger] skipped.contains(x) <==> (start <= x < next && !delivered.contains(x)),
        order.no_duplicates(),
        forall|i: int|
            0 <= i < order.len() ==> start <= #[trigger] order[i] < start + span
                && !delivered.contains(order[i]),
    ensures
        delivers_all(next, skipped, order),
    decreases order.len(),
{
    if order.len() > 0 {
        let c = order[0];
        let rest = order.drop_first();
        assert forall|i: int, j: int| 0 <= i < j < rest.len() implies rest[i] != rest[j] by {
            assert(rest[i] == order[i + 1] && rest[j] == order[j + 1]);
        }
        assert(rest.no_duplicates());
        lemma_receive_keeps_chain(next, skipped, c);
        if c < next {
            assert(skipped.contains(c));
            let k: int = skipped.index_of(c);
            let s = skipped.remove(k);
            let d2 = delivered.insert(c);
            assert forall|x: u32| #[trigger] s.contains(x) <==> (start <= x < next && !d2.contains(x)) by {
                if s.contains(x) {
                    let i: int = choose|i: int| 0 <= i < s.len() && s[i] == x;
                    let oi: int = if i < k { i } else { i + 1 };
                    assert(skipped[oi] == x);
                    assert(skipped.contains(x));
                    if x == c {
                        if oi < k {
                            assert(skipped[oi] < skipped[k]);
                        } else {
                            assert(skipped[k] < skipped[oi]);
                        }
                    }
                }
                if start <= x < next && !d2.contains(x) {
                    assert(skipped.contains(x));
                    let i: int = choose|i: int| 0 <= i < skipped.len() && skipped[i] == x;
                    assert(i != k);
                    if i < k {
                        assert(s[i] == x);
                    } else {
                        assert(s[i - 1] == x);
                    }
                }
            }
            assert forall|i: int| 0 <= i < rest.len() implies start <= #[trigger] rest[i] < start + span
                && !d2.contains(rest[i]) by {
                assert(rest[i] == order[i + 1]);
                assert(order[i + 1] != order[0]);
            }
            lemma_deliveries(start, span, next, s, d2, rest);
        } else {
            assert forall|i: int| 0 <= i < skipped.len() implies start <= #[trigger] skipped[i] < next by {
                assert(skipped.contains(skipped[i]));
            }
            lemma_rising_len(skipped, start, next);
            let all = skipped + counters(next, c as int);
            assert(all.len() <= MAX_MESSAGE_KEYS);
            let n2 = c + 1;
            let d2 = delivered.insert(c);
            assert(keep_last(all, MAX_MESSAGE_KEYS as int) == all);
            assert forall|x: u32| #[trigger] all.contains(x) <==> (start <= x < n2 && !d2.contains(x)) by {
                if all.contains(x) {
                    let i: int = choose|i: int| 0 <= i < all.len() && all[i] == x;
                    if i < skipped.len() {
                        assert(skipped[i] == x);
                        assert(skipped.contains(x));
                    }
                }
                if start <= x < n2 && !d2.contains(x) {
                    if x < next {
                        assert(skipped.contains(x));
                        let i: int = choose|i: int| 0 <= i < skipped.len() && skipped[i] == x;
                        assert(all[i] == x);
                    } else {
                        assert(all[skipped.len() + (x - next)] == x);
                    }
                }
            }
            assert forall|i: int| 0 <= i < rest.len() implies start <= #[trigger] rest[i] < start + span
                && !d2.contains(rest[i]) by {
                assert(rest[i] == order[i + 1]);
                assert(order[i + 1] != order[0]);
            }
            lemma_deliveries(start, span, n2, all, d2, rest);
        }
    }
}

} // verus!
