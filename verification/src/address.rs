//! Account and contract addresses as the contracts see them.
use vstd::prelude::*;
use crate::table::{Duplicate, KeyOrder, TableKey, bytes_lt, compare_bytes, lemma_bytes_lt_irreflexive, lemma_bytes_lt_transitive};

verus! {

/// An account or contract address, held as the bytes of its string form.
/// The contracts only ever compare addresses for equality and order them as
/// map keys.
#[derive(Clone, Debug, PartialEq, Eq)]
pub struct Address {
    pub key: Vec<u8>,
}

impl View for Address {
    type V = Seq<u8>;

    open spec fn view(&self) -> Seq<u8> {
        self.key@
    }
}

impl DeepView for Address {
    type V = Seq<u8>;

    open spec fn deep_view(&self) -> Seq<u8> {
        self.key@
    }
}

impl Address {
    /// The address whose string form has the bytes `key`.
    pub fn from_bytes(key: Vec<u8>) -> (a: Address)
        ensures
            a@ == key@,
    {
        Address { key }
    }

    /// Tells whether two addresses are the same.
    pub fn same_as(&self, other: &Address) -> (b: bool)
        ensures
            b == (self@ == other@),
    {
        match compare_bytes(&self.key, &other.key) {
            KeyOrder::Equal => true,
            _ => false,
        }
    }
}

impl Duplicate for Address {
    fn duplicate(&self) -> (r: Self) {
        let key = self.key.duplicate();
        proof {
            assert(key.deep_view() =~= key@);
            assert(self.key.deep_view() =~= self.key@);
        }
        Address { key }
    }
}

impl TableKey for Address {
    open spec fn key_lt(a: Seq<u8>, b: Seq<u8>) -> bool {
        bytes_lt(a, b)
    }

    proof fn lemma_key_lt_irreflexive(a: Seq<u8>) {
        lemma_bytes_lt_irreflexive(a);
    }

    proof fn lemma_key_lt_transitive(a: Seq<u8>, b: Seq<u8>, c: Seq<u8>) {
        lemma_bytes_lt_transitive(a, b, c);
    }

    fn compare_key(&self, other: &Self) -> (c: KeyOrder) {
        compare_bytes(&self.key, &other.key)
    }
}

/// Tells whether `a` occurs in `list`.
pub fn list_contains(list: &Vec<Address>, a: &Address) -> (b: bool)
    ensures
        b == list.deep_view().contains(a@),
{
    let mut i: usize = 0;
    while i < list.len()
        invariant
            i <= list.len(),
            forall|j: int| 0 <= j < i ==> (#[trigger] list@[j])@ != a@,
        decreases list.len() - i,
    {
        if list[i].same_as(a) {
            proof {
                assert(list.deep_view()[i as int] == a@);
            }
            return true;
        }
        i += 1;
    }
    proof {
        if list.deep_view().contains(a@) {
            let j = choose|j: int| 0 <= j < list.deep_view().len() && list.deep_view()[j] == a@;
            assert(list@[j]@ == a@);
        }
    }
    false
}

} // verus!
