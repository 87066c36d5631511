//! Models of the target build's fixed data structures: function tables,
//! dispatch tables and the user-message registry, each reduced to the plain
//! values the hooks read and write. Every ordinal is pinned to the one
//! target build; retargeting another build means revising these tables.

use vstd::prelude::*;

pub mod client;
pub mod engine;
pub mod hw;
pub mod vgui2;

verus! {

/// Compares two byte strings for equality.
pub fn bytes_eq(a: &[u8], b: &[u8]) -> (r: bool)
    ensures
        r == (a@ == b@),
{
    if a.len() != b.len() {
        assert(a@.len() != b@.len());
        return false;
    }

    let mut i: usize = 0;
    while i < a.len()
        invariant
            i <= a@.len(),
            a@.len() == b@.len(),
            forall|j: int| 0 <= j < i ==> a@[j] == b@[j],
        decreases a@.len() - i,
    {
        if a[i] != b[i] {
            return false;
        }
        i += 1;
    }

    assert(a@ =~= b@);
    true
}

/// One registered user message: its name and the handler the engine calls
/// for it.
pub struct UserMsg {
    pub name: Vec<u8>,
    pub pfn: usize,
}

/// The registry holds a message of the given name at index `i`.
pub open spec fn msg_named_at(msgs: Seq<UserMsg>, name: Seq<u8>, i: int) -> bool {
    0 <= i < msgs.len() && msgs[i].name@ == name
}

/// Finds the first registered message of the given name, walking the
/// registry in order, as the engine's linked list is walked.
pub fn find(msgs: &Vec<UserMsg>, name: &[u8]) -> (r: Option<usize>)
    ensures
        r matches Some(i) ==> (msg_named_at(msgs@, name@, i as int) && forall|j: int|
            0 <= j < i ==> msgs@[j].name@ != name@),
        r is None ==> forall|j: int| 0 <= j < msgs@.len() ==> msgs@[j].name@ != name@,
{
    let mut i: usize = 0;

    while i < msgs.len()
        invariant
            i <= msgs@.len(),
            forall|j: int| 0 <= j < i ==> msgs@[j].name@ != name@,
        decreases msgs@.len() - i,
    {
        if bytes_eq(msgs[i].name.as_slice(), name) {
            return Some(i);
        }
        i += 1;
    }

    None
}

} // verus!
