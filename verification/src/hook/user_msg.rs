//! The user-message hook: swaps the handler registered for a named message
//! and restores it on teardown.

use vstd::prelude::*;
use vstd::string::StringSliceAdditionalSpecFns;
use crate::game::UserMsg;
use crate::game::find;
use crate::game::msg_named_at;

verus! {

/// Why a message handler swap failed.
#[derive(Debug)]
pub enum Error {
    /// No registered message carries the requested name.
    MsgNotFound(String),
}

/// The user-message part of the hook set. The target build needs no message
/// handler swapped, so installation records nothing; `Single` below is the
/// per-message hook kept for builds that do.
pub struct Hook {}

impl Hook {
    /// Installs the (empty) user-message hook set.
    pub fn new() -> (r: Result<Hook, Error>)
        ensures
            r is Ok,
    {
        Ok(Hook {})
    }
}

/// Swaps the handler of the first registered message of the given name to
/// `new_pfn` and returns the handler it held.
pub fn hook(msgs: &mut Vec<UserMsg>, message_name: &str, new_pfn: usize) -> (r: Result<
    usize,
    Error,
>)
    ensures
        r is Ok <==> exists|i: int| msg_named_at(old(msgs)@, message_name.spec_bytes(), i),
        r matches Ok(original) ==> exists|i: int|
            {
                &&& #[trigger] msg_named_at(old(msgs)@, message_name.spec_bytes(), i)
                &&& forall|j: int|
                    0 <= j < i ==> old(msgs)@[j].name@ != message_name.spec_bytes()
                &&& original == old(msgs)@[i].pfn
                &&& final(msgs)@.len() == old(msgs)@.len()
                &&& final(msgs)@[i].name@ == old(msgs)@[i].name@
                &&& final(msgs)@[i].pfn == new_pfn
                &&& forall|j: int|
                    0 <= j < old(msgs)@.len() && j != i ==> final(msgs)@[j] == old(msgs)@[j]
            },
        r matches Err(e) ==> {
            &&& final(msgs)@ == old(msgs)@
            &&& e matches Error::MsgNotFound(n) && n@ == message_name@
        },
{
    let i = match find(msgs, message_name.as_bytes()) {
        Some(i) => i,
        None => {
            return Err(Error::MsgNotFound(message_name.to_owned()));
        },
    };

    let original = msgs[i].pfn;
    let name = vstd::slice::slice_to_vec(msgs[i].name.as_slice());
    msgs[i] = UserMsg { name, pfn: new_pfn };

    assert(msg_named_at(old(msgs)@, message_name.spec_bytes(), i as int));
    Ok(original)
}

/// One message handler held swapped: the message's name and the handler the
/// registry held before, for forwarding and for the swap back.
pub struct Single {
    pub name: String,
    pub original: usize,
}

impl Single {
    /// Swaps in `new_pfn` for the named message, capturing the prior handler.
    pub fn new(msgs: &mut Vec<UserMsg>, name: &str, new_pfn: usize) -> (r: Result<Single, Error>)
        ensures
            r is Ok <==> exists|i: int| msg_named_at(old(msgs)@, name.spec_bytes(), i),
            r matches Ok(s) ==> s.name@ == name@ && exists|i: int|
                {
                    &&& #[trigger] msg_named_at(old(msgs)@, name.spec_bytes(), i)
                    &&& forall|j: int| 0 <= j < i ==> old(msgs)@[j].name@ != name.spec_bytes()
                    &&& s.original == old(msgs)@[i].pfn
                    &&& final(msgs)@.len() == old(msgs)@.len()
                    &&& final(msgs)@[i].name@ == old(msgs)@[i].name@
                    &&& final(msgs)@[i].pfn == new_pfn
                    &&& forall|j: int|
                        0 <= j < old(msgs)@.len() && j != i ==> final(msgs)@[j] == old(
                        msgs,
                        )@[j]
                },
            r is Err ==> final(msgs)@ == old(msgs)@,
    {
        let original = hook(msgs, name, new_pfn)?;
        Ok(Single { name: name.to_owned(), original })
    }

    /// Swaps the captured handler back for the named message.
    pub fn restore(self, msgs: &mut Vec<UserMsg>) -> (r: Result<usize, Error>)
        ensures
            r is Ok <==> exists|i: int|
                msg_named_at(old(msgs)@, vstd::utf8::encode_utf8(self.name@), i),
            r matches Ok(original) ==> exists|i: int|
                {
                    &&& #[trigger] msg_named_at(old(msgs)@, vstd::utf8::encode_utf8(self.name@), i)
                    &&& original == old(msgs)@[i].pfn
                    &&& final(msgs)@.len() == old(msgs)@.len()
                    &&& final(msgs)@[i].name@ == old(msgs)@[i].name@
                    &&& final(msgs)@[i].pfn == self.original
                    &&& forall|j: int|
                        0 <= j < old(msgs)@.len() && j != i ==> final(msgs)@[j] == old(
                        msgs,
                        )@[j]
                },
            r is Err ==> final(msgs)@ == old(msgs)@,
    {
        let name_ref = self.name.as_str();
        proof {
            assert(name_ref.spec_bytes() =~= vstd::utf8::encode_utf8(self.name@));
        }
        hook(msgs, name_ref, self.original)
    }
}

} // verus!
