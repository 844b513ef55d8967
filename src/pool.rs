//! A fixed-capacity pool of reusable buffers. At most `capacity` buffers are
//! checked out at once; a returned buffer keeps whatever it last held.

use vstd::prelude::*;

verus! {

/// Whether a checkout succeeds on a pool of the given capacity with
/// `outstanding` buffers already checked out.
pub open spec fn checkout_succeeds(capacity: nat, outstanding: nat) -> bool {
    outstanding < capacity
}

/// Buffers checked out after one checkout attempt.
pub open spec fn after_checkout(capacity: nat, outstanding: nat) -> nat {
    if checkout_succeeds(capacity, outstanding) {
        outstanding + 1
    } else {
        outstanding
    }
}

/// A bounded free list of buffers.
pub struct Pool<T> {
    free: Vec<T>,
    capacity: usize,
}

/// An owning handle to a buffer checked out of a `Pool`.
pub struct Checkout<T> {
    value: T,
}

impl<T> Checkout<T> {
    /// The buffer held.
    pub closed spec fn value_spec(&self) -> T {
        self.value
    }

    /// Read access to the buffer.
    pub fn get(&self) -> (r: &T)
        ensures
            *r == self.value_spec(),
    {
        &self.value
    }

    /// Replace the buffer's contents, returning the previous ones.
    pub fn replace(&mut self, v: T) -> (r: T)
        ensures
            r == old(self).value_spec(),
            final(self).value_spec() == v,
    {
        let mut x = v;
        std::mem::swap(&mut self.value, &mut x);
        x
    }
}

impl<T> Pool<T> {
    /// Most buffers that may be checked out at once.
    pub closed spec fn capacity_spec(&self) -> nat {
        self.capacity as nat
    }

    /// The buffers free to be checked out; the last one goes out next.
    pub closed spec fn free_buffers(&self) -> Seq<T> {
        self.free@
    }

    /// Buffers currently checked out.
    pub closed spec fn outstanding(&self) -> nat {
        (self.capacity - self.free@.len()) as nat
    }

    pub closed spec fn wf(&self) -> bool {
        self.free@.len() <= self.capacity
    }

    /// Create a pool of `capacity` buffers, each made by `factory`.
    pub fn with_capacity<F: Fn() -> T>(capacity: usize, factory: F) -> (r: Self)
        requires
            factory.requires(()),
        ensures
            r.wf(),
            r.capacity_spec() == capacity,
            r.outstanding() == 0,
            r.free_buffers().len() == capacity,
            forall|k: int|
                0 <= k < capacity ==> #[trigger] factory.ensures((), r.free_buffers()[k]),
    {
        let mut free: Vec<T> = Vec::with_capacity(capacity);
        let mut k: usize = 0;
        while k < capacity
            invariant
                k <= capacity,
                free@.len() == k,
                factory.requires(()),
                forall|j: int| 0 <= j < k ==> #[trigger] factory.ensures((), free@[j]),
            decreases capacity - k,
        {
            free.push(factory());
            k = k + 1;
        }
        Pool { free, capacity }
    }

    /// Most buffers that may be checked out at once.
    pub fn capacity(&self) -> (r: usize)
        ensures
            r == self.capacity_spec(),
    {
        self.capacity
    }

    /// Number of buffers free to be checked out.
    pub fn available(&self) -> (r: usize)
        requires
            self.wf(),
        ensures
            r == self.capacity_spec() - self.outstanding(),
    {
        self.free.len()
    }

    /// Check a buffer out, or fail when all `capacity` buffers are out.
    pub fn checkout(&mut self) -> (r: Option<Checkout<T>>)
        requires
            old(self).wf(),
        ensures
            final(self).wf(),
            final(self).capacity_spec() == old(self).capacity_spec(),
            r is Some <==> checkout_succeeds(old(self).capacity_spec(), old(self).outstanding()),
            final(self).outstanding() == after_checkout(
                old(self).capacity_spec(),
                old(self).outstanding(),
            ),
            r matches Some(c) ==> c.value_spec() == old(self).free_buffers().last()
                && final(self).free_buffers() == old(self).free_buffers().drop_last(),
            r is None ==> final(self).free_buffers() == old(self).free_buffers(),
    {
        match self.free.pop() {
            Some(value) => Some(Checkout { value }),
            None => None,
        }
    }

    /// Return a checked-out buffer to the pool, as it is.
    pub fn release(&mut self, c: Checkout<T>)
        requires
            old(self).wf(),
            old(self).outstanding() > 0,
        ensures
            final(self).wf(),
            final(self).capacity_spec() == old(self).capacity_spec(),
            final(self).outstanding() == old(self).outstanding() - 1,
            final(self).free_buffers() == old(self).free_buffers().push(c.value_spec()),
    {
        self.free.push(c.value);
    }
}

/// Checkout round trip: starting from an empty pool, the first `capacity`
/// checkouts succeed and the next one fails; after one release exactly one
/// more checkout succeeds.
pub proof fn lemma_checkout_round_trip(capacity: nat)
    ensures
        forall|k: nat| k < capacity ==> #[trigger] checkout_succeeds(capacity, k) && after_checkout(
            capacity,
            k,
        ) == k + 1,
        !checkout_succeeds(capacity, capacity),
        after_checkout(capacity, capacity) == capacity,
        capacity > 0 ==> checkout_succeeds(capacity, (capacity - 1) as nat) && after_checkout(
            capacity,
            (capacity - 1) as nat,
        ) == capacity,
{
}

} // verus!
