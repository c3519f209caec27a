use crate::mutex::Mutex;
use std::sync::Arc;
use vstd::prelude::*;

verus! {

/// Returned by a send on a queue whose every slot is occupied.
#[derive(Clone, Copy, Debug, PartialEq, Eq, Structural, PartialOrd, Ord, Hash)]
pub struct QueueFullError;

/// Returned by a receive on a queue with no occupied slot.
#[derive(Clone, Copy, Debug, PartialEq, Eq, Structural, PartialOrd, Ord, Hash)]
pub struct QueueEmptyError;

impl QueueFullError {
    /// The fixed text that describes this error.
    pub fn message(&self) -> (r: String)
        ensures
            r@ == "spsc queue is full"@,
    {
        String::from_str("spsc queue is full")
    }
}

impl QueueEmptyError {
    /// The fixed text that describes this error.
    pub fn message(&self) -> (r: String)
        ensures
            r@ == "spsc queue is empty"@,
    {
        String::from_str("spsc queue is empty")
    }
}

/// Physical slot of the element `i` places after `start`, in a ring of
/// `cap` slots.
pub open spec fn slot_of(start: int, i: int, cap: int) -> int {
    if start + i < cap {
        start + i
    } else {
        start + i - cap
    }
}

/// Distance from `start` forward to slot `k`, in a ring of `cap` slots.
pub open spec fn offset_of(start: int, k: int, cap: int) -> int {
    if k >= start {
        k - start
    } else {
        k + cap - start
    }
}

/// Contents after offering `v` to a buffer of `cap` slots that holds `q`:
/// `v` goes behind the newest element unless every slot is occupied.
pub open spec fn send_spec<T>(q: Seq<T>, cap: nat, v: T) -> Seq<T> {
    if q.len() < cap {
        q.push(v)
    } else {
        q
    }
}

/// Contents after offering each value of `vs` in turn, with no receive between.
pub open spec fn send_all<T>(q: Seq<T>, cap: nat, vs: Seq<T>) -> Seq<T>
    decreases vs.len(),
{
    if vs.len() == 0 {
        q
    } else {
        send_spec(send_all(q, cap, vs.drop_last()), cap, vs.last())
    }
}

/// The values that `m` receives in a row take from a buffer holding `q`,
/// and what is left in it.
pub open spec fn recv_n<T>(q: Seq<T>, m: nat) -> (Seq<T>, Seq<T>)
    decreases m,
{
    if m == 0 || q.len() == 0 {
        (Seq::empty(), q)
    } else {
        let (got, rest) = recv_n(q.drop_first(), (m - 1) as nat);
        (seq![q[0]] + got, rest)
    }
}

proof fn lemma_send_all_appends<T>(q: Seq<T>, cap: nat, vs: Seq<T>)
    requires
        q.len() + vs.len() <= cap,
    ensures
        send_all(q, cap, vs) == q + vs,
    decreases vs.len(),
{
    if vs.len() > 0 {
        lemma_send_all_appends(q, cap, vs.drop_last());
        assert(q + vs =~= (q + vs.drop_last()).push(vs.last()));
    } else {
        assert(q + vs =~= q);
    }
}

proof fn lemma_recv_n_splits<T>(q: Seq<T>, m: nat)
    requires
        m <= q.len(),
    ensures
        recv_n(q, m) == (q.take(m as int), q.skip(m as int)),
    decreases m,
{
    if m == 0 {
        assert(q.take(0) =~= Seq::<T>::empty());
        assert(q.skip(0) =~= q);
    } else {
        lemma_recv_n_splits(q.drop_first(), (m - 1) as nat);
        assert(seq![q[0]] + q.drop_first().take(m - 1) =~= q.take(m as int));
        assert(q.drop_first().skip(m - 1) =~= q.skip(m as int));
    }
}

/// Filling: from empty, `cap` sends in a row all succeed and leave exactly
/// `cap` occupied slots, after which a further send is refused and changes
/// nothing.
pub proof fn law_fill_to_capacity<T>(vs: Seq<T>, cap: nat, extra: T)
    requires
        vs.len() == cap,
    ensures
        send_all(Seq::empty(), cap, vs) == vs,
        send_all(Seq::empty(), cap, vs).len() == cap,
        send_spec(send_all(Seq::empty(), cap, vs), cap, extra) == vs,
{
    lemma_send_all_appends(Seq::empty(), cap, vs);
    assert(Seq::<T>::empty() + vs =~= vs);
}

/// First in, first out: at most `cap` values sent in a row from empty are
/// all received, in the order sent, and leave the buffer empty.
pub proof fn law_fifo<T>(vs: Seq<T>, cap: nat)
    requires
        vs.len() <= cap,
    ensures
        recv_n(send_all(Seq::empty(), cap, vs), vs.len()) == (vs, Seq::<T>::empty()),
{
    lemma_send_all_appends(Seq::empty(), cap, vs);
    assert(Seq::<T>::empty() + vs =~= vs);
    lemma_recv_n_splits(vs, vs.len());
    assert(vs.take(vs.len() as int) =~= vs);
    assert(vs.skip(vs.len() as int) =~= Seq::<T>::empty());
}

/// Wrapping around: fill the buffer with `a`, receive `m < cap` values,
/// send the `m` values of `b`, then drain. The first receives give the
/// first `m` values of `a`; the drain gives the rest of `a` and then `b`,
/// all `cap` of them in send order, and leaves the buffer empty.
pub proof fn law_wraparound<T>(a: Seq<T>, b: Seq<T>, cap: nat, m: nat)
    requires
        a.len() == cap,
        b.len() == m,
        m < cap,
    ensures
        recv_n(send_all(Seq::empty(), cap, a), m).0 == a.take(m as int),
        recv_n(send_all(recv_n(send_all(Seq::empty(), cap, a), m).1, cap, b), cap) == (
            a.skip(m as int) + b,
            Seq::<T>::empty(),
        ),
{
    lemma_send_all_appends(Seq::empty(), cap, a);
    assert(Seq::<T>::empty() + a =~= a);
    lemma_recv_n_splits(a, m);
    let rest = a.skip(m as int);
    lemma_send_all_appends(rest, cap, b);
    let full = rest + b;
    lemma_recv_n_splits(full, cap);
    assert(full.take(cap as int) =~= full);
    assert(full.skip(cap as int) =~= Seq::<T>::empty());
}

/// A fixed ring of slots, each free (`None`) or occupied (`Some`). The
/// occupied slots are the `len` slots that follow `start` around the ring;
/// the count, not a comparison of positions, tells a full ring from an empty
/// one.
struct Ring<T> {
    slots: Vec<Option<T>>,
    start: usize,
    len: usize,
}

impl<T> Ring<T> {
    /// Number of slots, fixed when the buffer is made.
    spec fn capacity_spec(&self) -> nat {
        self.slots@.len()
    }

    /// A slot is occupied exactly when it lies among the `len` slots from
    /// `start` on.
    spec fn wf(&self) -> bool {
        let cap = self.slots@.len() as int;
        &&& (self.start < cap || (cap == 0 && self.start == 0))
        &&& self.len <= cap
        &&& forall|k: int|
            0 <= k < cap ==> (#[trigger] self.slots@[k] is Some <==> offset_of(
                self.start as int,
                k,
                cap,
            ) < self.len)
    }

    /// The values held, oldest first.
    spec fn view(&self) -> Seq<T> {
        Seq::new(
            self.len as nat,
            |i: int|
                self.slots@[slot_of(self.start as int, i, self.slots@.len() as int)]->Some_0,
        )
    }

    /// A ring of `capacity` free slots.
    fn new(capacity: usize) -> (r: Self)
        ensures
            r.wf(),
            r@ == Seq::<T>::empty(),
            r.capacity_spec() == capacity,
    {
        let mut slots: Vec<Option<T>> = Vec::with_capacity(capacity);
        let mut i: usize = 0;
        while i < capacity
            invariant
                i <= capacity,
                slots@.len() == i,
                forall|k: int| 0 <= k < i ==> #[trigger] slots@[k] is None,
            decreases capacity - i,
        {
            slots.push(None);
            i = i + 1;
        }
        let r = Ring { slots, start: 0, len: 0 };
        assert(r@ =~= Seq::<T>::empty());
        r
    }

    /// Physical slot of the element `i` places after `start`.
    fn slot(&self, i: usize) -> (r: usize)
        requires
            self.wf(),
            i < self.slots@.len(),
        ensures
            r == slot_of(self.start as int, i as int, self.slots@.len() as int),
            r < self.slots@.len(),
    {
        let cap = self.slots.len();
        if i < cap - self.start {
            self.start + i
        } else {
            i - (cap - self.start)
        }
    }

    /// Puts `value` behind the newest element. Fails, changing nothing, when
    /// every slot is occupied.
    fn try_send(&mut self, value: T) -> (r: Result<(), QueueFullError>)
        requires
            old(self).wf(),
        ensures
            final(self).wf(),
            final(self).capacity_spec() == old(self).capacity_spec(),
            final(self)@ == send_spec(old(self)@, old(self).capacity_spec(), value),
            r is Ok <==> old(self)@.len() < old(self).capacity_spec(),
    {
        if self.len == self.slots.len() {
            return Err(QueueFullError);
        }
        let idx = self.slot(self.len);
        let ghost before = *self;
        self.slots.set(idx, Some(value));
        self.len = self.len + 1;
        proof {
            let cap = self.slots@.len() as int;
            assert forall|k: int| 0 <= k < cap implies (#[trigger] self.slots@[k] is Some
                <==> offset_of(self.start as int, k, cap) < self.len) by {
                if k != idx {
                    assert(before.slots@[k] == self.slots@[k]);
                }
            }
            assert forall|i: int| 0 <= i < self.len implies #[trigger] self@[i] == before@.push(
                value,
            )[i] by {
                if i < before.len {
                    assert(slot_of(self.start as int, i, cap) != idx);
                }
            }
            assert(self@ =~= before@.push(value));
        }
        Ok(())
    }

    /// Takes the oldest element out, freeing its slot. Fails, changing
    /// nothing, when no slot is occupied.
    fn try_recv(&mut self) -> (r: Result<T, QueueEmptyError>)
        requires
            old(self).wf(),
        ensures
            final(self).wf(),
            final(self).capacity_spec() == old(self).capacity_spec(),
            r is Ok <==> old(self)@.len() > 0,
            r is Ok ==> r->Ok_0 == old(self)@[0],
            final(self)@ == (if r is Ok { old(self)@.drop_first() } else { old(self)@ }),
            recv_n(old(self)@, 1) == (
                if r is Ok { seq![r->Ok_0] } else { Seq::empty() },
                final(self)@,
            ),
    {
        if self.len == 0 {
            return Err(QueueEmptyError);
        }
        let ghost before = *self;
        let idx = self.start;
        assert(idx < self.slots@.len());
        let mut taken: Option<T> = None;
        self.slots.set_and_swap(idx, &mut taken);
        let cap = self.slots.len();
        self.start = if idx == cap - 1 { 0 } else { idx + 1 };
        self.len = self.len - 1;
        proof {
            let cap = self.slots@.len() as int;
            assert(before.slots@[idx as int] is Some);
            assert forall|k: int| 0 <= k < cap implies (#[trigger] self.slots@[k] is Some
                <==> offset_of(self.start as int, k, cap) < self.len) by {
                if k != idx {
                    assert(before.slots@[k] == self.slots@[k]);
                }
            }
            assert forall|i: int| 0 <= i < self.len implies #[trigger] self@[i]
                == before@.drop_first()[i] by {
                assert(slot_of(self.start as int, i, cap) == slot_of(before.start as int, i + 1, cap));
            }
            assert(self@ =~= before@.drop_first());
            assert(recv_n(before@.drop_first(), 0) == (Seq::<T>::empty(), before@.drop_first()));
            assert(seq![before@[0]] + Seq::<T>::empty() =~= seq![before@[0]]);
        }
        match taken {
            Some(v) => Ok(v),
            None => Err(QueueEmptyError),
        }
    }
}

/// A bounded first-in first-out buffer with a capacity fixed when it is made.
pub struct RingBuffer<T> {
    ring: Ring<T>,
}

impl<T> RingBuffer<T> {
    #[verifier::type_invariant]
    spec fn inv(&self) -> bool {
        self.ring.wf()
    }

    /// Number of slots, fixed when the buffer is made.
    pub closed spec fn capacity_spec(&self) -> nat {
        self.ring.capacity_spec()
    }

    /// The values held, oldest first.
    pub closed spec fn view(&self) -> Seq<T> {
        self.ring@
    }

    /// An empty buffer with `capacity` free slots.
    pub fn new(capacity: usize) -> (r: Self)
        ensures
            r@ == Seq::<T>::empty(),
            r.capacity_spec() == capacity,
    {
        RingBuffer { ring: Ring::new(capacity) }
    }

    /// Number of slots.
    pub fn capacity(&self) -> (r: usize)
        ensures
            r == self.capacity_spec(),
    {
        self.ring.slots.len()
    }

    /// Number of occupied slots.
    pub fn len(&self) -> (r: usize)
        ensures
            r == self@.len(),
    {
        self.ring.len
    }

    /// Whether no slot is occupied.
    pub fn is_empty(&self) -> (r: bool)
        ensures
            r == (self@.len() == 0),
    {
        self.ring.len == 0
    }

    /// Whether every slot is occupied.
    pub fn is_full(&self) -> (r: bool)
        ensures
            r == (self@.len() == self.capacity_spec()),
    {
        self.ring.len == self.ring.slots.len()
    }

    /// Puts `value` behind the newest element. Succeeds exactly when a slot
    /// is free; on failure nothing changes.
    pub fn try_send(&mut self, value: T) -> (r: Result<(), QueueFullError>)
        ensures
            final(self).capacity_spec() == old(self).capacity_spec(),
            final(self)@ == send_spec(old(self)@, old(self).capacity_spec(), value),
            r is Ok <==> old(self)@.len() < old(self).capacity_spec(),
    {
        proof {
            use_type_invariant(&*self);
        }
        let mut ring = Ring::new(0);
        std::mem::swap(&mut ring, &mut self.ring);
        let r = ring.try_send(value);
        self.ring = ring;
        r
    }

    /// Takes the oldest element out, freeing its slot. Succeeds exactly when
    /// a slot is occupied; on failure nothing changes.
    pub fn try_recv(&mut self) -> (r: Result<T, QueueEmptyError>)
        ensures
            final(self).capacity_spec() == old(self).capacity_spec(),
            r is Ok <==> old(self)@.len() > 0,
            r is Ok ==> r->Ok_0 == old(self)@[0],
            final(self)@ == (if r is Ok { old(self)@.drop_first() } else { old(self)@ }),
            recv_n(old(self)@, 1) == (
                if r is Ok { seq![r->Ok_0] } else { Seq::empty() },
                final(self)@,
            ),
    {
        proof {
            use_type_invariant(&*self);
        }
        let mut ring = Ring::new(0);
        std::mem::swap(&mut ring, &mut self.ring);
        let r = ring.try_recv();
        self.ring = ring;
        r
    }
}

/// The sending end of a queue made by `channel`.
///
/// The buffer is shared with exactly one `Consumer`, and each end goes
/// through the buffer's lock for the moment of one send or receive, so the
/// buffer's ordering and capacity rules hold whatever the two threads do.
#[verifier::reject_recursive_types(T)]
pub struct Producer<T> {
    queue: Arc<Mutex<RingBuffer<T>>>,
    capacity: usize,
}

/// The receiving end of a queue made by `channel`.
#[verifier::reject_recursive_types(T)]
pub struct Consumer<T> {
    queue: Arc<Mutex<RingBuffer<T>>>,
    capacity: usize,
}

/// Makes an empty queue of `capacity` slots and returns its two ends.
pub fn channel<T>(capacity: usize) -> (r: (Producer<T>, Consumer<T>))
    ensures
        r.0.capacity_spec() == capacity,
        r.1.capacity_spec() == capacity,
{
    let queue = Arc::new(Mutex::new(RingBuffer::new(capacity)));
    let other = queue.clone();
    (Producer { queue, capacity }, Consumer { queue: other, capacity })
}

impl<T> Producer<T> {
    /// Number of slots of the shared buffer.
    pub closed spec fn capacity_spec(&self) -> nat {
        self.capacity as nat
    }

    /// Number of slots of the shared buffer.
    pub fn capacity(&self) -> (r: usize)
        ensures
            r == self.capacity_spec(),
    {
        self.capacity
    }

    /// Sends `value` unless every slot is occupied; then `value` is dropped
    /// and the buffer is left as it was.
    pub fn try_send(&self, value: T) -> (r: Result<(), QueueFullError>) {
        let mut guard = self.queue.lock();
        guard.get_mut().try_send(value)
    }
}

impl<T> Consumer<T> {
    /// Number of slots of the shared buffer.
    pub closed spec fn capacity_spec(&self) -> nat {
        self.capacity as nat
    }

    /// Number of slots of the shared buffer.
    pub fn capacity(&self) -> (r: usize)
        ensures
            r == self.capacity_spec(),
    {
        self.capacity
    }

    /// Receives the oldest value, or fails when no slot is occupied.
    pub fn try_recv(&self) -> (r: Result<T, QueueEmptyError>) {
        let mut guard = self.queue.lock();
        guard.get_mut().try_recv()
    }
}

} // verus!
