//! Plain-value names: who acts, and which tier is meant.

use vstd::prelude::*;

verus! {

/// Whether two byte strings are equal. Every byte is visited whenever the
/// lengths agree: the comparison does not stop at the first difference.
pub fn bytes_equal(left: &Vec<u8>, right: &Vec<u8>) -> (same: bool)
    ensures
        same == (left@ == right@),
{
    if left.len() != right.len() {
        return false;
    }
    let mut same: bool = true;
    let mut i: usize = 0;
    while i < left.len()
        invariant
            left@.len() == right@.len(),
            i <= left@.len(),
            same == (forall|j: int| 0 <= j < i ==> left@[j] == right@[j]),
        decreases left@.len() - i,
    {
        if left[i] != right[i] {
            same = false;
        }
        i = i + 1;
    }
    proof {
        if same {
            assert(left@ =~= right@);
        }
    }
    same
}

/// A copy of a byte string.
pub fn copy_bytes(source: &Vec<u8>) -> (copy: Vec<u8>)
    ensures
        copy@ == source@,
{
    let mut copy: Vec<u8> = Vec::new();
    let mut i: usize = 0;
    while i < source.len()
        invariant
            i <= source@.len(),
            copy@ == source@.subrange(0, i as int),
        decreases source@.len() - i,
    {
        copy.push(source[i]);
        i = i + 1;
    }
    proof {
        assert(source@.subrange(0, i as int) == source@);
    }
    copy
}

/// An account or contract, named by the bytes of its address.
#[derive(Debug)]
pub struct Identity {
    pub bytes: Vec<u8>,
}

impl View for Identity {
    type V = Seq<u8>;

    open spec fn view(&self) -> Seq<u8> {
        self.bytes@
    }
}

impl Identity {
    /// The identity with the given address bytes.
    pub fn new(bytes: Vec<u8>) -> (identity: Identity)
        ensures
            identity@ == bytes@,
    {
        Identity { bytes }
    }

    /// Whether both name the same account.
    pub fn same_as(&self, other: &Identity) -> (same: bool)
        ensures
            same == (self@ == other@),
    {
        bytes_equal(&self.bytes, &other.bytes)
    }

    /// A copy that names the same account.
    pub fn duplicate(&self) -> (copy: Identity)
        ensures
            copy@ == self@,
    {
        Identity { bytes: copy_bytes(&self.bytes) }
    }
}

/// The short symbolic key of a tier, unique within a sale.
#[derive(Debug)]
pub struct TierKey {
    pub bytes: Vec<u8>,
}

impl View for TierKey {
    type V = Seq<u8>;

    open spec fn view(&self) -> Seq<u8> {
        self.bytes@
    }
}

impl TierKey {
    /// The key with the given symbol bytes.
    pub fn new(bytes: Vec<u8>) -> (key: TierKey)
        ensures
            key@ == bytes@,
    {
        TierKey { bytes }
    }

    /// Whether both are the same key.
    pub fn same_as(&self, other: &TierKey) -> (same: bool)
        ensures
            same == (self@ == other@),
    {
        bytes_equal(&self.bytes, &other.bytes)
    }

    /// A copy of the key.
    pub fn duplicate(&self) -> (copy: TierKey)
        ensures
            copy@ == self@,
    {
        TierKey { bytes: copy_bytes(&self.bytes) }
    }
}

} // verus!
