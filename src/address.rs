//! Identities of accounts and contracts on the host chain.

use vstd::prelude::*;

verus! {

/// An identity: either an account or a contract package, each named by a
/// 32-byte hash.
#[derive(Clone, Copy, Debug, PartialEq, Eq)]
pub enum Address {
    Account([u8; 32]),
    Contract([u8; 32]),
}

/// Mathematical form of an identity: whether it names a contract, and its hash.
pub type AddressView = (bool, Seq<u8>);

impl View for Address {
    type V = AddressView;

    open spec fn view(&self) -> AddressView {
        match self {
            Address::Account(h) => (false, h@),
            Address::Contract(h) => (true, h@),
        }
    }
}

/// Whether two 32-byte hashes hold the same bytes.
pub fn same_hash(a: &[u8; 32], b: &[u8; 32]) -> (r: bool)
    ensures
        r == (a@ == b@),
{
    let mut i: usize = 0;
    while i < 32
        invariant
            0 <= i <= 32,
            a@.len() == 32,
            b@.len() == 32,
            forall|k: int| 0 <= k < i ==> a@[k] == b@[k],
        decreases 32 - i,
    {
        if a[i] != b[i] {
            return false;
        }
        i = i + 1;
    }
    assert(a@ =~= b@);
    true
}

impl Address {
    /// Whether `self` and `other` denote the same identity.
    pub fn same_as(&self, other: &Address) -> (r: bool)
        ensures
            r == (self@ == other@),
    {
        match (self, other) {
            (Address::Account(a), Address::Account(b)) => same_hash(a, b),
            (Address::Contract(a), Address::Contract(b)) => same_hash(a, b),
            _ => false,
        }
    }
}

/// The identities a list of addresses holds, in order.
pub open spec fn address_views(list: Seq<Address>) -> Seq<AddressView> {
    list.map_values(|x: Address| x@)
}

/// Whether some identity in `list` is `a`.
pub fn contains_address(list: &Vec<Address>, a: &Address) -> (r: bool)
    ensures
        r == address_views(list@).contains(a@),
{
    let ghost views = address_views(list@);
    let mut i: usize = 0;
    while i < list.len()
        invariant
            0 <= i <= list@.len(),
            views == address_views(list@),
            forall|k: int| 0 <= k < i ==> views[k] != a@,
        decreases list@.len() - i,
    {
        if list[i].same_as(a) {
            assert(views[i as int] == a@);
            return true;
        }
        i = i + 1;
    }
    false
}

} // verus!
