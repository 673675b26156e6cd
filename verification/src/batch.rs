//! The records of one file that wait for their bulk write.

use crate::models::TypedRecord;
use vstd::arithmetic::div_mod::{
    lemma_fundamental_div_mod, lemma_fundamental_div_mod_converse, lemma_mod_bound,
};
use vstd::prelude::*;

verus! {

/// How many records wait after `rows` rows went into a batch of the given
/// capacity, each full batch leaving at once. A capacity of 0 sets no bound.
pub open spec fn buffered_after(rows: nat, capacity: nat) -> nat
    decreases rows,
{
    if rows == 0 {
        0
    } else {
        let before = buffered_after((rows - 1) as nat, capacity);
        if before + 1 == capacity {
            0
        } else {
            before + 1
        }
    }
}

/// The sizes of the bulk writes that `rows` rows have caused so far, in
/// order: one for each batch that became full.
pub open spec fn full_writes(rows: nat, capacity: nat) -> Seq<nat>
    decreases rows,
{
    if rows == 0 {
        Seq::empty()
    } else {
        let before = buffered_after((rows - 1) as nat, capacity);
        if before + 1 == capacity {
            full_writes((rows - 1) as nat, capacity).push(capacity)
        } else {
            full_writes((rows - 1) as nat, capacity)
        }
    }
}

/// The sizes of all bulk writes of a file of `rows` rows: the full batches,
/// and at the end of the file what is left, if anything is.
pub open spec fn all_writes(rows: nat, capacity: nat) -> Seq<nat> {
    let left = buffered_after(rows, capacity);
    if left > 0 {
        full_writes(rows, capacity).push(left)
    } else {
        full_writes(rows, capacity)
    }
}

/// The sum of the numbers of a sequence.
pub open spec fn total(sizes: Seq<nat>) -> nat
    decreases sizes.len(),
{
    if sizes.len() == 0 {
        0
    } else {
        total(sizes.drop_last()) + sizes.last()
    }
}

/// One more row: the remainder by the capacity goes up by one, or falls
/// back to zero where the quotient goes up.
proof fn lemma_one_more(before: nat, capacity: nat)
    requires
        capacity > 0,
    ensures
        before % capacity + 1 == capacity ==> (before + 1) % capacity == 0 && (before + 1)
            / capacity == before / capacity + 1,
        before % capacity + 1 != capacity ==> (before + 1) % capacity == before % capacity + 1
            && (before + 1) / capacity == before / capacity,
{
    let q = before as int / capacity as int;
    let r = before as int % capacity as int;
    lemma_fundamental_div_mod(before as int, capacity as int);
    lemma_mod_bound(before as int, capacity as int);
    if r + 1 == capacity {
        assert(before + 1 == (q + 1) * capacity + 0) by (nonlinear_arith)
            requires
                before == capacity * q + r,
                r + 1 == capacity,
        ;
        lemma_fundamental_div_mod_converse(before as int + 1, capacity as int, q + 1, 0);
    } else {
        assert(before + 1 == q * capacity + (r + 1)) by (nonlinear_arith)
            requires
                before == capacity * q + r,
        ;
        lemma_fundamental_div_mod_converse(before as int + 1, capacity as int, q, r + 1);
    }
}

/// With a bound, what waits is the remainder of the rows by the capacity,
/// and so always less than the capacity; without one, everything waits.
pub proof fn lemma_buffered_after(rows: nat, capacity: nat)
    ensures
        capacity > 0 ==> buffered_after(rows, capacity) == rows % capacity,
        capacity > 0 ==> buffered_after(rows, capacity) < capacity,
        capacity == 0 ==> buffered_after(rows, capacity) == rows,
    decreases rows,
{
    if rows > 0 {
        lemma_buffered_after((rows - 1) as nat, capacity);
        if capacity > 0 {
            lemma_one_more((rows - 1) as nat, capacity);
        }
    }
    if capacity > 0 {
        lemma_mod_bound(rows as int, capacity as int);
    }
}

/// Every full batch has exactly the capacity, and there are as many as the
/// capacity goes into the rows.
pub proof fn lemma_full_writes(rows: nat, capacity: nat)
    requires
        capacity > 0,
    ensures
        full_writes(rows, capacity).len() == rows / capacity,
        forall|i: int|
            0 <= i < full_writes(rows, capacity).len() ==> #[trigger] full_writes(rows, capacity)[i]
                == capacity,
    decreases rows,
{
    if rows == 0 {
        lemma_fundamental_div_mod_converse(0, capacity as int, 0, 0);
    } else {
        let before = (rows - 1) as nat;
        lemma_full_writes(before, capacity);
        lemma_buffered_after(before, capacity);
        lemma_one_more(before, capacity);
    }
}

/// Full batches and what waits add up to the rows read so far.
pub proof fn lemma_nothing_lost(rows: nat, capacity: nat)
    ensures
        total(full_writes(rows, capacity)) + buffered_after(rows, capacity) == rows,
    decreases rows,
{
    if rows > 0 {
        let before = (rows - 1) as nat;
        lemma_nothing_lost(before, capacity);
        if buffered_after(before, capacity) + 1 == capacity {
            let writes = full_writes(before, capacity).push(capacity);
            assert(writes.drop_last() =~= full_writes(before, capacity));
        }
    }
}

/// Every row of a file is written exactly once: the sizes of all its bulk
/// writes add up to its rows.
pub proof fn lemma_all_rows_written(rows: nat, capacity: nat)
    ensures
        total(all_writes(rows, capacity)) == rows,
{
    lemma_nothing_lost(rows, capacity);
    let left = buffered_after(rows, capacity);
    if left > 0 {
        let writes = full_writes(rows, capacity).push(left);
        assert(writes.drop_last() =~= full_writes(rows, capacity));
    }
}

/// The number of bulk writes of a file: the rows divided by the capacity,
/// rounded up.
pub proof fn lemma_number_of_writes(rows: nat, capacity: nat)
    requires
        capacity > 0,
    ensures
        all_writes(rows, capacity).len() == rows / capacity + (if rows % capacity > 0 {
            1nat
        } else {
            0nat
        }),
{
    lemma_full_writes(rows, capacity);
    lemma_buffered_after(rows, capacity);
}

/// Records of one file, gathered up to a capacity.
pub struct Batch {
    records: Vec<TypedRecord>,
    capacity: usize,
}

impl View for Batch {
    type V = Seq<TypedRecord>;

    closed spec fn view(&self) -> Seq<TypedRecord> {
        self.records@
    }
}

impl Batch {
    /// The number of records at which the batch is full; 0 for no bound.
    pub closed spec fn capacity(&self) -> nat {
        self.capacity as nat
    }

    #[verifier::type_invariant]
    spec fn below_capacity(&self) -> bool {
        self.capacity > 0 ==> self.records@.len() < self.capacity
    }

    /// An empty batch.
    pub fn new(capacity: usize) -> (batch: Batch)
        ensures
            batch@.len() == 0,
            batch.capacity() == capacity,
    {
        Batch { records: Vec::new(), capacity }
    }

    /// The number of records that wait.
    pub fn len(&self) -> (n: usize)
        ensures
            n == self@.len(),
            self.capacity() > 0 ==> n < self.capacity(),
    {
        proof {
            use_type_invariant(self);
        }
        self.records.len()
    }

    /// Adds a record. Where that fills the batch, the records leave it, the
    /// new one last, and the batch is empty again.
    pub fn push(&mut self, record: TypedRecord) -> (full: Option<Vec<TypedRecord>>)
        ensures
            final(self).capacity() == old(self).capacity(),
            old(self)@.len() + 1 == old(self).capacity() ==> final(self)@.len() == 0,
            old(self)@.len() + 1 == old(self).capacity() ==> (full matches Some(records)
                && records@ == old(self)@.push(record)),
            old(self)@.len() + 1 != old(self).capacity() ==> full is None && final(self)@ == old(
                self,
            )@.push(record),
    {
        proof {
            use_type_invariant(&*self);
        }
        let mut records: Vec<TypedRecord> = Vec::new();
        std::mem::swap(&mut self.records, &mut records);
        let full: bool = self.capacity > 0 && records.len() == self.capacity - 1;
        records.push(record);
        if full {
            Some(records)
        } else {
            std::mem::swap(&mut self.records, &mut records);
            None
        }
    }

    /// Takes out what waits and leaves the batch empty.
    pub fn take(&mut self) -> (records: Vec<TypedRecord>)
        ensures
            final(self).capacity() == old(self).capacity(),
            final(self)@.len() == 0,
            records@ == old(self)@,
    {
        let mut records: Vec<TypedRecord> = Vec::new();
        std::mem::swap(&mut self.records, &mut records);
        records
    }
}

} // verus!
