//! Fixed-capacity experience replay: a ring of transitions with FIFO eviction
//! and uniform sampling without replacement.
use vstd::prelude::*;

verus! {

/// One stored transition. `reward` is in ten-thousandths of the maximal
/// reward, from the perspective given by the training loop.
#[derive(Clone, Debug)]
pub struct BufferElement {
    pub actual_state: String,
    pub action: usize,
    pub reward: i64,
    pub next_state: String,
    pub done: bool,
}

/// The mathematical value of a transition.
pub ghost struct TransitionView {
    pub actual_state: Seq<char>,
    pub action: nat,
    pub reward: int,
    pub next_state: Seq<char>,
    pub done: bool,
}

impl View for BufferElement {
    type V = TransitionView;

    open spec fn view(&self) -> TransitionView {
        TransitionView {
            actual_state: self.actual_state@,
            action: self.action as nat,
            reward: self.reward as int,
            next_state: self.next_state@,
            done: self.done,
        }
    }
}

impl BufferElement {
    /// A copy with the same fields.
    pub fn duplicate(&self) -> (r: BufferElement)
        ensures
            r@ == self@,
    {
        BufferElement {
            actual_state: self.actual_state.clone(),
            action: self.action,
            reward: self.reward,
            next_state: self.next_state.clone(),
            done: self.done,
        }
    }
}

/// The last `c` items of `s`, or all of them when there are fewer.
pub open spec fn keep_recent<T>(s: Seq<T>, c: nat) -> Seq<T> {
    if s.len() <= c {
        s
    } else {
        s.subrange(s.len() - c, s.len() as int)
    }
}

/// The contents, oldest first, of a buffer of capacity `c` after `es` were
/// added to an empty one, one by one, as `add` describes each step.
pub open spec fn after_adds<T>(c: nat, es: Seq<T>) -> Seq<T>
    decreases es.len(),
{
    if es.len() == 0 {
        Seq::empty()
    } else {
        keep_recent(after_adds(c, es.drop_last()).push(es.last()), c)
    }
}

/// Adding to a buffer that holds the most recent items keeps it so.
pub proof fn lemma_keep_recent_push<T>(s: Seq<T>, x: T, c: nat)
    requires
        c > 0,
    ensures
        keep_recent(keep_recent(s, c).push(x), c) == keep_recent(s.push(x), c),
{
    assert(keep_recent(keep_recent(s, c).push(x), c) =~= keep_recent(s.push(x), c));
}

/// Whatever was added, a buffer of capacity `c > 0` holds exactly the `c` most
/// recently added transitions, oldest first; once `c` or more were added it
/// holds `c` of them.
pub proof fn lemma_fifo_eviction<T>(c: nat, es: Seq<T>)
    requires
        c > 0,
    ensures
        after_adds(c, es) == keep_recent(es, c),
        es.len() >= c ==> after_adds(c, es).len() == c,
    decreases es.len(),
{
    if es.len() > 0 {
        lemma_fifo_eviction(c, es.drop_last());
        lemma_keep_recent_push(es.drop_last(), es.last(), c);
        assert(es.drop_last().push(es.last()) =~= es);
    } else {
        assert(keep_recent(es, c) =~= Seq::<T>::empty());
    }
}

/// The slots of a buffer of capacity `c` after `es` were added to an empty
/// one: each addition fills the next slot until all `c` are used, then
/// overwrites the slot under the cursor.
pub open spec fn slots_after<T>(c: nat, es: Seq<T>) -> Seq<T>
    decreases es.len(),
{
    if es.len() == 0 {
        Seq::empty()
    } else {
        let s = slots_after(c, es.drop_last());
        if s.len() < c {
            s.push(es.last())
        } else {
            s.update(cursor_after(c, (es.len() - 1) as nat) as int, es.last())
        }
    }
}

/// The cursor of a buffer of capacity `c` after `k` additions.
pub open spec fn cursor_after(c: nat, k: nat) -> nat {
    k % c
}

/// Advancing the cursor once more after `k` additions gives the cursor after
/// `k + 1`: starting from 0, the cursor after `k` additions is `k % c`.
pub proof fn lemma_cursor_step(c: nat, k: nat)
    requires
        c > 0,
    ensures
        cursor_after(c, (cursor_after(c, k) + 1) as nat) == cursor_after(c, k + 1),
        cursor_after(c, 0) == 0,
{
    vstd::arithmetic::div_mod::lemma_add_mod_noop(k as int, 1, c as int);
    vstd::arithmetic::div_mod::lemma_mod_bound(k as int, c as int);
    if c == 1 {
        vstd::arithmetic::div_mod::lemma_mod_self_0(1);
    } else {
        vstd::arithmetic::div_mod::lemma_small_mod(1, c);
    }
    vstd::arithmetic::div_mod::lemma_small_mod(0, c);
}

proof fn lemma_distinct_residues(c: int, i: int, j: int)
    requires
        c > 0,
        0 <= i < j,
        j - i < c,
    ensures
        i % c != j % c,
{
    vstd::arithmetic::div_mod::lemma_fundamental_div_mod(i, c);
    vstd::arithmetic::div_mod::lemma_fundamental_div_mod(j, c);
    if i % c == j % c {
        let m = j / c - i / c;
        assert(j - i == c * m) by (nonlinear_arith)
            requires
                i == c * (i / c) + i % c,
                j == c * (j / c) + j % c,
                i % c == j % c,
                m == j / c - i / c,
        ;
        assert(false) by (nonlinear_arith)
            requires
                j - i == c * m,
                0 < j - i < c,
                c > 0,
        ;
    }
}

/// In a buffer of capacity `c` that received `es`, slot `i % c` holds the
/// `i`-th transition added, for each of the `c` most recent ones; so once
/// `k >= c` were added, the slot under the cursor `k % c` holds the oldest
/// one kept, the next to be overwritten.
pub proof fn lemma_slot_order<T>(c: nat, es: Seq<T>)
    requires
        c > 0,
    ensures
        slots_after(c, es).len() == if es.len() < c { es.len() } else { c },
        forall|i: int|
            es.len() - c <= i < es.len() && 0 <= i ==> #[trigger] slots_after(c, es)[i % (c as int)] == es[i],
    decreases es.len(),
{
    if es.len() > 0 {
        let k = es.len() as int;
        let pre = es.drop_last();
        lemma_slot_order(c, pre);
        let s = slots_after(c, pre);
        assert forall|i: int| k - c <= i < k && 0 <= i implies #[trigger] slots_after(c, es)[i % (c as int)] == es[i] by {
            if i < k - 1 {
                assert(pre[i] == es[i]);
                assert(s[i % (c as int)] == pre[i]);
                if s.len() >= c {
                    lemma_distinct_residues(c as int, i, k - 1);
                }
            }
            if s.len() < c {
                vstd::arithmetic::div_mod::lemma_small_mod(i as nat, c);
            }
            vstd::arithmetic::div_mod::lemma_mod_bound(i, c as int);
        }
    }
}

pub struct ReplayBuffer {
    buffer: Vec<BufferElement>,
    capacity: usize,
    index: usize,
}

/// Relies on `rand::thread_rng` and `rand::seq::index::sample`: exactly
/// `amount` distinct indices below `length`, drawn uniformly.
#[verifier::external_body]
fn random_indices(length: usize, amount: usize) -> (r: Vec<usize>)
    requires
        amount <= length,
    ensures
        r.len() == amount,
        forall|i: int| 0 <= i < r.len() ==> r[i] < length,
        forall|i: int, j: int| 0 <= i < j < r.len() ==> r[i] != r[j],
{
    let mut rng = rand::thread_rng();
    rand::seq::index::sample(&mut rng, length, amount).into_vec()
}

impl ReplayBuffer {
    /// Internal consistency: the cursor is in range and, until the buffer is
    /// first full, stands just after the last element.
    pub closed spec fn wf(&self) -> bool {
        &&& 0 < self.capacity
        &&& self.buffer.len() <= self.capacity
        &&& self.index < self.capacity
        &&& self.buffer.len() < self.capacity ==> self.index == self.buffer.len()
    }

    /// The capacity the buffer was made with.
    pub closed spec fn capacity_spec(&self) -> nat {
        self.capacity as nat
    }

    /// The slots in storage order.
    pub closed spec fn slots(&self) -> Seq<TransitionView> {
        self.buffer@.map_values(|e: BufferElement| e@)
    }

    /// The slot that the next addition writes once the buffer is full.
    pub closed spec fn cursor(&self) -> nat {
        self.index as nat
    }

    /// The stored transitions in storage order.
    closed spec fn stored(&self) -> Seq<BufferElement> {
        if self.buffer.len() < self.capacity {
            self.buffer@
        } else {
            self.buffer@.subrange(self.index as int, self.buffer.len() as int) + self.buffer@.subrange(
                0,
                self.index as int,
            )
        }
    }

    /// Physical slot of the `k`-th oldest transition.
    closed spec fn slot(&self, k: int) -> int {
        if self.buffer.len() < self.capacity {
            k
        } else if k < self.capacity - self.index {
            self.index + k
        } else {
            k - (self.capacity - self.index)
        }
    }

    proof fn lemma_slot(&self, k: int)
        requires
            self.wf(),
            0 <= k < self.buffer.len(),
        ensures
            0 <= self.slot(k) < self.buffer.len(),
            self.stored()[k] == self.buffer@[self.slot(k)],
    {
    }
}

impl View for ReplayBuffer {
    type V = Seq<TransitionView>;

    /// The stored transitions, oldest first.
    closed spec fn view(&self) -> Seq<TransitionView> {
        self.stored().map_values(|e: BufferElement| e@)
    }
}

impl ReplayBuffer {
    /// An empty buffer that holds up to `capacity` transitions.
    pub fn new(capacity: usize) -> (r: ReplayBuffer)
        requires
            capacity > 0,
        ensures
            r.wf(),
            r@ == Seq::<TransitionView>::empty(),
            r.slots() == Seq::<TransitionView>::empty(),
            r.cursor() == 0,
            r.cursor() < r.capacity_spec(),
            r.capacity_spec() == capacity,
    {
        let r = ReplayBuffer { buffer: Vec::with_capacity(capacity), capacity, index: 0 };
        assert(r@ =~= Seq::<TransitionView>::empty());
        assert(r.slots() =~= Seq::<TransitionView>::empty());
        r
    }

    /// Number of stored transitions.
    pub fn len(&self) -> (r: usize)
        requires
            self.wf(),
        ensures
            r == self@.len(),
            r <= self.capacity_spec(),
            self.slots().len() == self@.len(),
            self.cursor() < self.capacity_spec(),
    {
        self.buffer.len()
    }

    /// Stores a transition; once the buffer is full, the oldest one leaves.
    pub fn add(&mut self, element: BufferElement)
        requires
            old(self).wf(),
        ensures
            final(self).wf(),
            final(self).capacity_spec() == old(self).capacity_spec(),
            final(self)@ == keep_recent(old(self)@.push(element@), old(self).capacity_spec()),
            final(self).slots() == if old(self).slots().len() < old(self).capacity_spec() {
                old(self).slots().push(element@)
            } else {
                old(self).slots().update(old(self).cursor() as int, element@)
            },
            final(self).cursor() < final(self).capacity_spec(),
            final(self).slots().len() == final(self)@.len(),
            final(self).cursor() == cursor_after(old(self).capacity_spec(), (old(self).cursor() + 1) as nat),
    {
        let ghost e = element;
        let ghost before = self.stored();
        if self.index >= self.buffer.len() {
            self.buffer.push(element);
        } else {
            self.buffer.set(self.index, element);
        }
        self.index += 1;
        if self.index == self.capacity {
            self.index = 0;
        }
        proof {
            let c = self.capacity as int;
            let after = self.stored();
            let expected = keep_recent(before.push(e), c as nat);
            if old(self).buffer.len() < c {
                assert(after =~= expected);
            } else {
                assert(before.push(e).len() == c + 1);
                assert(expected =~= before.push(e).subrange(1, c + 1));
                assert(after =~= expected);
            }
            assert(self@ =~= keep_recent(old(self)@.push(element@), c as nat));
            if old(self).buffer.len() < c {
                assert(self.slots() =~= old(self).slots().push(element@));
            } else {
                assert(self.slots() =~= old(self).slots().update(old(self).cursor() as int, element@));
            }
            if old(self).index + 1 < c {
                vstd::arithmetic::div_mod::lemma_small_mod((old(self).index + 1) as nat, c as nat);
            } else {
                vstd::arithmetic::div_mod::lemma_mod_self_0(c);
            }
        }
    }

    /// Physical slot of the `k`-th oldest transition.
    fn slot_of(&self, k: usize) -> (r: usize)
        requires
            self.wf(),
            k < self.buffer.len(),
        ensures
            r < self.buffer.len(),
            self.stored()[k as int] == self.buffer@[r as int],
    {
        proof {
            self.lemma_slot(k as int);
        }
        if self.buffer.len() < self.capacity {
            k
        } else if k < self.capacity - self.index {
            self.index + k
        } else {
            k - (self.capacity - self.index)
        }
    }

    /// Copies of the stored transitions, oldest first.
    pub fn contents(&self) -> (r: Vec<BufferElement>)
        requires
            self.wf(),
        ensures
            r.len() == self@.len(),
            forall|k: int| 0 <= k < r.len() ==> #[trigger] r[k]@ == self@[k],
    {
        let mut res: Vec<BufferElement> = Vec::new();
        let mut k: usize = 0;
        while k < self.buffer.len()
            invariant
                self.wf(),
                k <= self.buffer.len(),
                res.len() == k,
                forall|i: int| 0 <= i < k ==> #[trigger] res[i]@ == self@[i],
            decreases self.buffer.len() - k,
        {
            let slot = self.slot_of(k);
            res.push(self.buffer[slot].duplicate());
            k += 1;
        }
        res
    }

    /// `samples` distinct stored transitions, drawn uniformly at random.
    pub fn get_samples(&self, samples: usize) -> (r: Vec<BufferElement>)
        requires
            self.wf(),
            samples <= self@.len(),
        ensures
            r.len() == samples,
            exists|idx: Seq<int>|
                idx.len() == samples && (forall|k: int| 0 <= k < samples ==> 0 <= #[trigger] idx[k] < self@.len()
                    && r[k]@ == self@[idx[k]]) && (forall|a: int, b: int|
                    0 <= a < b < samples ==> idx[a] != idx[b]),
    {
        let picks = random_indices(self.buffer.len(), samples);
        let mut res: Vec<BufferElement> = Vec::new();
        let mut j: usize = 0;
        while j < picks.len()
            invariant
                self.wf(),
                j <= picks.len() == samples <= self.buffer.len(),
                forall|i: int| 0 <= i < picks.len() ==> picks[i] < self.buffer.len(),
                forall|a: int, b: int| 0 <= a < b < picks.len() ==> picks[a] != picks[b],
                res.len() == j,
                forall|k: int| 0 <= k < j ==> res[k]@ == self@[picks[k] as int],
            decreases picks.len() - j,
        {
            let k = picks[j];
            let slot = self.slot_of(k);
            res.push(self.buffer[slot].duplicate());
            j += 1;
        }
        let ghost idx = picks@.map_values(|p: usize| p as int);
        assert(idx.len() == samples && (forall|k: int| 0 <= k < samples ==> 0 <= #[trigger] idx[k] < self@.len()
            && res[k]@ == self@[idx[k]]) && (forall|a: int, b: int|
            0 <= a < b < samples ==> idx[a] != idx[b]));
        res
    }
}

} // verus!
