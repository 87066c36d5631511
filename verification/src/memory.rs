//! Reversible in-place memory patches.
//!
//! A `Patch` captures the value currently held at a target address, writes a
//! replacement, and can later restore the captured value. The patched location
//! is modelled as a mutable value handed in by the caller together with its
//! numeric address; the runtime layer performs the same write on the real
//! location after toggling page protection.

use vstd::prelude::*;

verus! {

/// Why a patch target was rejected before any write was performed.
#[derive(Clone, Copy, Debug, PartialEq, Eq, Structural)]
pub enum Error {
    /// The target address is null.
    NullPointer,
    /// The target address does not satisfy the value's required alignment.
    UnalignedPointer {
        address: usize,
        required_alignment: usize,
        num_bytes_needed_to_align_ptr: usize,
    },
}

impl Error {
    /// A short fixed description; the fields carry the diagnostic detail.
    pub fn describe(&self) -> (r: &'static str)
        ensures
            *self is NullPointer ==> r@ == "null pointer"@,
            *self is UnalignedPointer ==> r@ == "unaligned pointer"@,
    {
        proof {
            reveal_strlit("null pointer");
            reveal_strlit("unaligned pointer");
        }
        match self {
            Error::NullPointer => "null pointer",
            Error::UnalignedPointer { .. } => "unaligned pointer",
        }
    }
}

/// The error `ptr_check` reports for a given address and alignment, defined
/// for addresses that fail the check.
pub open spec fn check_error(address: usize, align: usize) -> Error {
    if address == 0 {
        Error::NullPointer
    } else {
        Error::UnalignedPointer {
            address,
            required_alignment: align,
            num_bytes_needed_to_align_ptr: (align - address % align) as usize,
        }
    }
}

/// A target address is usable when it is non-null and aligned.
pub open spec fn address_ok(address: usize, align: usize) -> bool {
    address != 0 && address % align == 0
}

/// Rejects null and misaligned target addresses. `align` is the alignment the
/// patched value requires, in bytes.
pub fn ptr_check(address: usize, align: usize) -> (r: Result<(), Error>)
    requires
        1 <= align,
    ensures
        r is Ok <==> address_ok(address, align),
        r is Err ==> r->Err_0 == check_error(address, align),
{
    if address == 0 {
        return Err(Error::NullPointer);
    }

    let rem: usize = address % align;

    if rem > 0 {
        return Err(Error::UnalignedPointer {
            address,
            required_alignment: align,
            num_bytes_needed_to_align_ptr: align - rem,
        });
    }

    Ok(())
}

/// The value a location holds once a patch with replacement `new_value` is
/// installed over it.
pub open spec fn patched_value<T>(before: T, new_value: T) -> T {
    new_value
}

/// The value a patch captures when installed over a location holding `before`.
pub open spec fn captured_value<T>(before: T, new_value: T) -> T {
    before
}

/// The value a location holds once a patch holding `captured` is restored.
pub open spec fn restored_value<T>(installed: T, captured: T) -> T {
    captured
}

/// Round-trip idempotence: installing a patch and then restoring it leaves the
/// target location holding exactly the value it held before the install,
/// whatever the patched value's width.
pub proof fn lemma_patch_round_trip<T>(before: T, new_value: T)
    ensures
        restored_value(
            patched_value(before, new_value),
            captured_value(before, new_value),
        ) == before,
{
}

/// A reversible overwrite of one location: the target's address, and the value
/// the location held before the patch was installed.
#[derive(Debug)]
pub struct Patch<T> {
    address: usize,
    old_value: T,
    active: bool,
}

impl<T: Copy> Patch<T> {
    /// The validated address this patch was installed at.
    pub closed spec fn addr(&self) -> usize {
        self.address
    }

    /// Whether the patch is installed and not yet restored.
    pub closed spec fn is_active(&self) -> bool {
        self.active
    }

    /// The value the patched location held before the install.
    pub closed spec fn captured(&self) -> T {
        self.old_value
    }

    /// Reads the captured pre-install value, available for forwarding.
    pub fn old_value(&self) -> (v: T)
        ensures
            v == self.captured(),
    {
        self.old_value
    }

    /// Installs a patch: validates the target address, captures the value the
    /// location currently holds, and writes the replacement. On rejection the
    /// location is left untouched.
    ///
    /// `target` is the patched location; `address` is where it lives in the
    /// target process and `align` the alignment the value's type requires.
    pub fn new(address: usize, align: usize, target: &mut T, new_value: T) -> (r: Result<
        Patch<T>,
        Error,
    >)
        requires
            1 <= align,
        ensures
            r is Ok <==> address_ok(address, align),
            r is Ok ==> {
                let p = r->Ok_0;
                &&& *final(target) == patched_value(*old(target), new_value)
                &&& p.captured() == captured_value(*old(target), new_value)
                &&& p.addr() == address
                &&& p.is_active()
            },
            r is Err ==> *final(target) == *old(target) && r->Err_0 == check_error(
                address,
                align,
            ),
    {
        let old_value = Self::patch(address, align, target, new_value)?;
        Ok(Patch { address, old_value, active: true })
    }

    /// Validates the address, then swaps the replacement value into the
    /// location, returning the value it held. The runtime layer brackets the
    /// real write with a page-protection toggle; the captured and written
    /// values are exactly these.
    fn patch(address: usize, align: usize, target: &mut T, new_value: T) -> (r: Result<T, Error>)
        requires
            1 <= align,
        ensures
            r is Ok <==> address_ok(address, align),
            r is Ok ==> *final(target) == new_value && r->Ok_0 == *old(target),
            r is Err ==> *final(target) == *old(target) && r->Err_0 == check_error(
                address,
                align,
            ),
    {
        ptr_check(address, align)?;

        let old_value = *target;
        *target = new_value;

        Ok(old_value)
    }

    /// Writes the captured value back to the location. A patch restores at
    /// most once: the handle goes inactive, and a second restore is refused.
    pub fn restore(&mut self, target: &mut T)
        requires
            old(self).is_active(),
        ensures
            *final(target) == restored_value(*old(target), old(self).captured()),
            !final(self).is_active(),
            final(self).captured() == old(self).captured(),
            final(self).addr() == old(self).addr(),
    {
        *target = self.old_value;
        self.active = false;
    }
}

} // verus!
