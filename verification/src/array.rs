//! The dynamic-array type: the runtime's null-pointer-terminated table of
//! per-element heap allocations, reproduced as a single owner of all of its
//! storage.
//!
//! The runtime's own layout is a bare pointer-to-pointer plus a size counter;
//! indexing past the size, scanning for a missing terminator and freeing
//! twice are all undefined there. Here every one of those becomes an
//! explicit, checked outcome: `get` range-checks, reconstruction from a
//! slot run demands a terminator within the run, and releasing storage is
//! idempotent.

use vstd::prelude::*;

use crate::MarshalError;

verus! {

/// A dynamic array generic over its element type.
///
/// `data` of `None` stands for the layout's null table pointer — the state
/// `new` begins in, and the state `clear` and `free` leave behind. The
/// table allocation and every element belong to this value alone; growth
/// reallocates the table, so nothing outside the value may retain a view
/// into it across `append`.
pub struct PascalDynamicArray<T> {
    data: Option<Vec<T>>,
    cur_size: u32,
}

/// The number of leading slots before the first terminator slot, or the
/// whole length when no terminator occurs.
pub open spec fn terminated_prefix_len<T>(slots: Seq<Option<T>>) -> int
    decreases slots.len(),
{
    if slots.len() == 0 {
        0
    } else if slots[0] is None {
        0
    } else {
        1 + terminated_prefix_len(slots.drop_first())
    }
}

impl<T> PascalDynamicArray<T> {
    /// The stored table: `None` for the null table, otherwise the run of
    /// elements it holds.
    pub closed spec fn table(self) -> Option<Seq<T>> {
        match self.data {
            Some(v) => Some(v@),
            None => None,
        }
    }

    /// The elements, in order; empty when the table is null.
    pub open spec fn elems(self) -> Seq<T> {
        match self.table() {
            Some(s) => s,
            None => Seq::empty(),
        }
    }

    /// The size counter always matches the table: exactly `cur_size`
    /// element slots, and a null table only at size zero.
    pub closed spec fn wf(self) -> bool {
        self.cur_size as nat == self.elems().len() && (self.table() is None ==> self.cur_size
            == 0)
    }

    /// How many live heap allocations the value owns: one per element plus
    /// one for the table itself, or none while the table is null.
    pub open spec fn allocation_count(self) -> nat {
        match self.table() {
            Some(s) => s.len() + 1,
            None => 0,
        }
    }

    /// A zero-length array with a null table: a valid empty state that owns
    /// no allocation yet.
    pub fn new() -> (r: PascalDynamicArray<T>)
        ensures
            r.wf(),
            r.table() is None,
            r.elems() == Seq::<T>::empty(),
    {
        PascalDynamicArray { data: None, cur_size: 0 }
    }

    /// Takes ownership of `item` and writes it into one new slot at the
    /// end: the size grows by exactly one and every earlier element keeps
    /// its place. The table allocation may move, so no view into the table
    /// taken before this call survives it.
    pub fn append(&mut self, item: T)
        requires
            old(self).wf(),
            old(self).elems().len() < u32::MAX,
        ensures
            final(self).wf(),
            final(self).table() matches Some(s) && s == old(self).elems().push(item),
            final(self).elems() == old(self).elems().push(item),
    {
        match &mut self.data {
            Some(v) => v.push(item),
            None => {
                let mut v: Vec<T> = Vec::new();
                v.push(item);
                self.data = Some(v);
            },
        }
        self.cur_size = self.cur_size + 1;
    }

    /// Range-checked element access: the element at `index`, or `None` at
    /// or past the size. The bare layout indexes with no check; indexing
    /// out of range here is an explicit failure, never an out-of-bounds
    /// read.
    pub fn get(&self, index: usize) -> (r: Option<&T>)
        requires
            self.wf(),
        ensures
            index < self.elems().len() ==> (r matches Some(v) && *v == self.elems()[index as int]),
            index >= self.elems().len() ==> r is None,
    {
        match &self.data {
            Some(v) => {
                if index < v.len() {
                    Some(&v[index])
                } else {
                    None
                }
            },
            None => None,
        }
    }

    /// The current element count.
    pub fn len(&self) -> (r: u32)
        requires
            self.wf(),
        ensures
            r as nat == self.elems().len(),
    {
        self.cur_size
    }

    /// Resets the size to zero and detaches the table. In the bare
    /// layout a detach leaves the storage dangling; under single
    /// ownership, detaching with no other owner releases it. Callers that
    /// mean to keep the storage state that intent through `detach`.
    pub fn clear(&mut self)
        ensures
            final(self).wf(),
            final(self).table() is None,
            final(self).elems() == Seq::<T>::empty(),
    {
        self.cur_size = 0;
        self.data = None;
    }

    /// Releases every element allocation and then the table allocation,
    /// reporting how many allocations were released: one per element plus
    /// one for the table. Idempotent: once the table is null — after
    /// `new`, `clear`, or an earlier `free` — there is nothing to release
    /// and the call reports zero, so no storage can be released twice.
    pub fn free(&mut self) -> (released: u64)
        requires
            old(self).wf(),
        ensures
            final(self).wf(),
            final(self).table() is None,
            released as nat == old(self).allocation_count(),
    {
        let released: u64 = match &self.data {
            Some(v) => {
                proof {
                    assert(v@.len() == self.elems().len());
                }
                v.len() as u64 + 1
            },
            None => 0,
        };
        self.cur_size = 0;
        self.data = None;
        released
    }

    /// Reconstructs an array from a C-style run of nullable slots, taking
    /// ownership of every element before the first terminator slot. A
    /// bare terminator scan can read past the run's end; here a run with
    /// no terminator is rejected outright instead of read out of bounds.
    #[verifier::loop_isolation(false)]
    pub fn from_terminated(slots: Vec<Option<T>>) -> (r: Result<PascalDynamicArray<T>, MarshalError>)
        requires
            slots@.len() <= u32::MAX,
        ensures
            r matches Ok(a) ==> {
                &&& a.wf()
                &&& terminated_prefix_len(slots@) < slots@.len()
                &&& a.elems().len() == terminated_prefix_len(slots@)
                &&& forall|i: int|
                    #![trigger slots@[i]]
                    0 <= i < a.elems().len() ==> (slots@[i] matches Some(v) && a.elems()[i] == v)
            },
            r is Err <==> terminated_prefix_len(slots@) == slots@.len(),
            r matches Err(e) ==> e is MissingTerminator,
    {
        let ghost orig = slots@;
        let mut slots = slots;
        let mut out: Vec<T> = Vec::new();
        loop
            invariant
                orig.len() <= u32::MAX,
                out@.len() + slots@.len() == orig.len(),
                orig.subrange(out@.len() as int, orig.len() as int) == slots@,
                forall|i: int| #![trigger orig[i]] 0 <= i < out@.len() ==> (orig[i] matches Some(v) && out@[i] == v),
            decreases slots@.len(),
        {
            let ghost k = out@.len() as int;
            proof {
                lemma_terminated_prefix_step(orig, k);
            }
            if slots.len() == 0 {
                proof {
                    assert(orig.subrange(k, orig.len() as int).len() == 0);
                    assert(terminated_prefix_len(orig) == orig.len());
                }
                return Err(MarshalError::MissingTerminator);
            }
            let ghost pre = slots@;
            proof {
                assert(pre[0] == orig.subrange(k, orig.len() as int)[0]);
                assert(pre[0] == orig[k]);
            }
            let slot = slots.remove(0);
            match slot {
                Some(item) => {
                    out.push(item);
                    proof {
                        assert(slots@ =~= pre.drop_first());
                        assert(orig.subrange(out@.len() as int, orig.len() as int)
                            =~= pre.drop_first());
                    }
                },
                None => {
                    proof {
                        lemma_terminated_prefix_stops(orig, k);
                    }
                    let size = out.len() as u32;
                    return Ok(PascalDynamicArray { data: Some(out), cur_size: size });
                },
            }
        }
    }

    /// Builds an array from an owned run of elements; the size is the
    /// run's length directly, with no terminator scan.
    pub fn from_elems(elems: Vec<T>) -> (r: PascalDynamicArray<T>)
        requires
            elems@.len() <= u32::MAX,
        ensures
            r.wf(),
            r.table() == Some(elems@),
            r.elems() == elems@,
    {
        let size = elems.len() as u32;
        PascalDynamicArray { data: Some(elems), cur_size: size }
    }

    /// Moves the elements out as a plain run, leaving nothing behind;
    /// empty when the table is null.
    pub fn into_elems(self) -> (r: Vec<T>)
        requires
            self.wf(),
        ensures
            r@ == self.elems(),
    {
        match self.data {
            Some(v) => v,
            None => Vec::new(),
        }
    }

    /// Hands the table itself to the caller, who takes over ownership of
    /// every allocation: `None` when the table is null. This is the
    /// "detach and hand off" intent spelled out, next to `clear`, so a
    /// caller states which of the two it means; the storage lives on
    /// under the caller's name.
    pub fn detach(self) -> (r: Option<Vec<T>>)
        ensures
            match r {
                Some(v) => self.table() == Some(v@),
                None => self.table() is None,
            },
    {
        self.data
    }
}

proof fn lemma_terminated_prefix_step<T>(slots: Seq<Option<T>>, k: int)
    requires
        0 <= k <= slots.len(),
        forall|i: int| 0 <= i < k ==> slots[i] is Some,
    ensures
        terminated_prefix_len(slots) == k + terminated_prefix_len(
            slots.subrange(k, slots.len() as int),
        ),
    decreases k,
{
    if k > 0 {
        assert(slots[0] is Some);
        assert(terminated_prefix_len(slots) == 1 + terminated_prefix_len(slots.drop_first()));
        assert forall|i: int| 0 <= i < k - 1 implies (slots.drop_first()[i] is Some) by {
            assert(slots.drop_first()[i] == slots[i + 1]);
        }
        lemma_terminated_prefix_step(slots.drop_first(), k - 1);
        assert(slots.drop_first().subrange(k - 1, slots.drop_first().len() as int) =~= slots
            .subrange(k, slots.len() as int));
    } else {
        assert(slots.subrange(0, slots.len() as int) =~= slots);
    }
}

proof fn lemma_terminated_prefix_stops<T>(slots: Seq<Option<T>>, k: int)
    requires
        0 <= k < slots.len(),
        forall|i: int| 0 <= i < k ==> slots[i] is Some,
        slots[k] is None,
    ensures
        terminated_prefix_len(slots) == k,
    decreases k,
{
    if k == 0 {
    } else {
        assert(slots[0] is Some);
        assert(terminated_prefix_len(slots) == 1 + terminated_prefix_len(slots.drop_first()));
        assert forall|i: int| 0 <= i < k - 1 implies (slots.drop_first()[i] is Some) by {
            assert(slots.drop_first()[i] == slots[i + 1]);
        }
        assert(slots.drop_first()[k - 1] is None);
        lemma_terminated_prefix_stops(slots.drop_first(), k - 1);
    }
}

/// After appends, earlier elements keep both place and value: appending
/// never disturbs an element already in the array, and the element a slot
/// was filled with is the element read back from that slot. Together with
/// `append`'s own contract — each call extends the element run by exactly
/// the appended item — this gives: after `n` appends onto an empty array
/// the length is `n`, and the `i`-th slot holds the `i`-th appended
/// element unchanged.
pub proof fn lemma_append_keeps_elements<T>(elems: Seq<T>, item: T, i: int)
    requires
        0 <= i < elems.len(),
    ensures
        elems.push(item).len() == elems.len() + 1,
        elems.push(item)[i] == elems[i],
        elems.push(item)[elems.len() as int] == item,
{
}

/// Destruction safety: a live table holding `k` elements accounts for
/// exactly `k + 1` allocations — `k` elements and the table — and a null
/// table accounts for none. With `free`'s contract — it reports exactly
/// the live allocation count and leaves the table null — repeated `free`
/// calls release `k + 1` allocations in total, all on the first call,
/// and can never release any allocation twice.
pub proof fn lemma_destruction_safety<T>(arr: PascalDynamicArray<T>)
    requires
        arr.wf(),
    ensures
        arr.table() is Some ==> arr.allocation_count() == arr.elems().len() + 1,
        arr.table() is None ==> arr.allocation_count() == 0,
{
}

} // verus!
