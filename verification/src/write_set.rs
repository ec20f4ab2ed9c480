//! The write-set: the ordered list of writes that a transaction leaves, no
//! two of them to the same path.

use vstd::prelude::*;
use crate::status::{StatusCode, VMStatus};
use crate::types::{AccountAddress, same_bytes};

verus! {

/// The key of one stored item: the account's address, and the path of the
/// item below it.
#[derive(Clone, Debug, PartialEq, Eq, Hash)]
pub struct AccessPath {
    pub address: AccountAddress,
    pub path: Vec<u8>,
}

/// What an `AccessPath` holds.
pub struct AccessPathView {
    pub address: Seq<u8>,
    pub path: Seq<u8>,
}

impl View for AccessPath {
    type V = AccessPathView;

    open spec fn view(&self) -> AccessPathView {
        AccessPathView { address: self.address@, path: self.path@ }
    }
}

impl AccessPath {
    pub fn new(address: AccountAddress, path: Vec<u8>) -> (p: AccessPath)
        ensures
            p.address == address,
            p.path == path,
    {
        AccessPath { address, path }
    }

    /// Whether two paths name the same item.
    pub fn same_as(&self, other: &AccessPath) -> (r: bool)
        ensures
            r == (self@ == other@),
    {
        self.address.same_as(&other.address) && same_bytes(&self.path, &other.path)
    }
}

/// One write: a new value for an item, or its deletion.
#[derive(Clone, Debug, PartialEq, Eq, Hash)]
pub enum WriteOp {
    Deletion,
    Value(Vec<u8>),
}

/// What a `WriteOp` holds.
pub enum WriteOpView {
    Deletion,
    Value(Seq<u8>),
}

impl View for WriteOp {
    type V = WriteOpView;

    open spec fn view(&self) -> WriteOpView {
        match *self {
            WriteOp::Deletion => WriteOpView::Deletion,
            WriteOp::Value(v) => WriteOpView::Value(v@),
        }
    }
}

impl WriteOp {
    pub fn is_deletion(&self) -> (r: bool)
        ensures
            r == (self@ is Deletion),
    {
        match self {
            WriteOp::Deletion => true,
            WriteOp::Value(_) => false,
        }
    }
}

/// What a list of writes holds.
pub open spec fn spec_writes(l: Seq<(AccessPath, WriteOp)>) -> Seq<(AccessPathView, WriteOpView)> {
    l.map_values(|w: (AccessPath, WriteOp)| (w.0@, w.1@))
}

/// No two writes of a list go to the same path.
pub open spec fn spec_unique_paths(l: Seq<(AccessPathView, WriteOpView)>) -> bool {
    forall|i: int, j: int| 0 <= i < j < l.len() ==> (#[trigger] l[i]).0 != (#[trigger] l[j]).0
}

/// A list of writes that is still being put together: it may hold two writes
/// to one path.
#[derive(Clone, Debug, PartialEq, Eq, Hash)]
pub struct WriteSetMut {
    pub write_set: Vec<(AccessPath, WriteOp)>,
}

/// A list of writes that is final: no two of them go to the same path, and
/// their order is the order in which they were put in.
#[derive(Debug, PartialEq, Eq, Hash)]
pub struct WriteSet {
    write_set: Vec<(AccessPath, WriteOp)>,
}

impl View for WriteSetMut {
    type V = Seq<(AccessPathView, WriteOpView)>;

    open spec fn view(&self) -> Seq<(AccessPathView, WriteOpView)> {
        spec_writes(self.write_set@)
    }
}

impl View for WriteSet {
    type V = Seq<(AccessPathView, WriteOpView)>;

    closed spec fn view(&self) -> Seq<(AccessPathView, WriteOpView)> {
        spec_writes(self.write_set@)
    }
}

impl WriteSetMut {
    pub fn new(write_set: Vec<(AccessPath, WriteOp)>) -> (ws: WriteSetMut)
        ensures
            ws.write_set == write_set,
    {
        WriteSetMut { write_set }
    }

    pub fn push(&mut self, item: (AccessPath, WriteOp))
        ensures
            final(self)@ == old(self)@.push((item.0@, item.1@)),
    {
        self.write_set.push(item);
        assert(self@ =~= old(self)@.push((item.0@, item.1@)));
    }

    pub fn is_empty(&self) -> (r: bool)
        ensures
            r == (self@.len() == 0),
    {
        self.write_set.len() == 0
    }

    /// Whether the write at `i` goes to a path that no earlier write goes to.
    fn is_first_to_its_path(&self, i: usize) -> (r: bool)
        requires
            i < self@.len(),
        ensures
            r == (forall|k: int| 0 <= k < i ==> (#[trigger] self@[k]).0 != self@[i as int].0),
    {
        let mut k: usize = 0;
        while k < i
            invariant
                k <= i,
                i < self.write_set@.len(),
                forall|m: int| 0 <= m < k ==> (#[trigger] self@[m]).0 != self@[i as int].0,
            decreases i - k,
        {
            if self.write_set[k].0.same_as(&self.write_set[i].0) {
                assert(self@[k as int].0 == self@[i as int].0);
                return false;
            }
            k = k + 1;
        }
        true
    }

    /// Makes the list final. Fails with a data-format error if and only if
    /// two of the writes go to the same path; else the final list holds the
    /// same writes in the same order.
    pub fn freeze(self) -> (r: Result<WriteSet, VMStatus>)
        ensures
            match r {
                Ok(ws) => spec_unique_paths(self@) && ws@ == self@,
                Err(e) => !spec_unique_paths(self@) && e == VMStatus::Error(
                    StatusCode::DataFormatError,
                ),
            },
    {
        let mut i: usize = 0;
        while i < self.write_set.len()
            invariant
                i <= self.write_set@.len(),
                forall|a: int, b: int|
                    0 <= a < b < i ==> (#[trigger] self@[a]).0 != (#[trigger] self@[b]).0,
            decreases self.write_set.len() - i,
        {
            if !self.is_first_to_its_path(i) {
                return Err(VMStatus::Error(StatusCode::DataFormatError));
            }
            i = i + 1;
        }
        assert(self@.len() == self.write_set@.len());
        assert(spec_unique_paths(self@));
        Ok(WriteSet { write_set: self.write_set })
    }
}

impl WriteSet {
    #[verifier::type_invariant]
    spec fn unique(&self) -> bool {
        spec_unique_paths(spec_writes(self.write_set@))
    }

    pub fn is_empty(&self) -> (r: bool)
        ensures
            r == (self@.len() == 0),
    {
        self.write_set.len() == 0
    }

    /// The number of writes, no two of which go to the same path.
    pub fn len(&self) -> (n: usize)
        ensures
            n == self@.len(),
            spec_unique_paths(self@),
    {
        proof {
            use_type_invariant(self);
        }
        self.write_set.len()
    }

    /// The write at `i`, in the order in which the writes were put in.
    pub fn get(&self, i: usize) -> (w: &(AccessPath, WriteOp))
        requires
            i < self@.len(),
        ensures
            (w.0@, w.1@) == self@[i as int],
    {
        &self.write_set[i]
    }

    /// The writes as a list that can be changed again.
    pub fn into_mut(self) -> (ws: WriteSetMut)
        ensures
            ws@ == self@,
            spec_unique_paths(ws@),
    {
        proof {
            use_type_invariant(&self);
        }
        WriteSetMut { write_set: self.write_set }
    }
}

} // verus!
