//! Boundary-safe reading of caller-supplied pointers.
//!
//! When the foreign caller passes a pointer *into* the library, nothing
//! about it can be trusted except what the boundary contract delegates to
//! the caller: it is either null or points at a valid, null-terminated
//! buffer.  `CallerPtr` models exactly that much — nullability plus the
//! bytes in front of the terminator — and the borrow operations below turn
//! it into a read-only view, or into "absent" when there is no value or
//! the bytes are not valid text.

use vstd::prelude::*;

use crate::encoding::{is_utf8, validate_utf8};

verus! {

/// What a caller-supplied pointer denotes at the boundary.
pub enum CallerPtr {
    /// The null pointer: "no value".
    Null,
    /// A non-null pointer to a null-terminated buffer; `bytes` holds the
    /// bytes in front of the terminator.
    Data { bytes: Vec<u8> },
}

impl CallerPtr {
    /// The bytes in front of the terminator.
    pub open spec fn bytes_of(self) -> Seq<u8>
        recommends
            self is Data,
    {
        self->bytes@
    }

    /// The boundary precondition on a non-null caller-supplied pointer:
    /// the buffer is correctly terminated, so no byte in front of the
    /// terminator is itself the terminator.
    pub open spec fn wf(self) -> bool {
        self matches CallerPtr::Data { bytes } ==> forall|j: int|
            0 <= j < bytes@.len() ==> bytes@[j] != 0
    }
}

/// The view a raw borrow of `p` yields: absent exactly on null.
pub open spec fn raw_view(p: CallerPtr) -> Option<Seq<u8>> {
    match p {
        CallerPtr::Null => None,
        CallerPtr::Data { bytes } => Some(bytes@),
    }
}

/// The view a text borrow of `p` yields: absent on null and on bytes that
/// are not well-formed text.
pub open spec fn text_view(p: CallerPtr) -> Option<Seq<u8>> {
    match p {
        CallerPtr::Null => None,
        CallerPtr::Data { bytes } => if is_utf8(bytes@) {
            Some(bytes@)
        } else {
            None
        },
    }
}

/// Borrows the raw, read-only view of a caller-supplied pointer.
///
/// Total over all inputs: null yields absent, anything else yields the
/// bytes in front of the terminator.  No ownership is taken and nothing
/// is copied or freed.
pub fn try_borrow_raw(p: &CallerPtr) -> (r: Option<&Vec<u8>>)
    requires
        p.wf(),
    ensures
        (match r {
            Some(v) => raw_view(*p) == Some(v@),
            None => raw_view(*p) is None,
        }),
{
    match p {
        CallerPtr::Null => None,
        CallerPtr::Data { bytes } => Some(bytes),
    }
}

/// Borrows the validated text view of a caller-supplied pointer.
///
/// As `try_borrow_raw`, but additionally checks that the bytes form
/// well-formed text; malformed text is reported as "no value", never as
/// a fault.
pub fn try_borrow_text(p: &CallerPtr) -> (r: Option<&Vec<u8>>)
    requires
        p.wf(),
    ensures
        (match r {
            Some(v) => text_view(*p) == Some(v@) && is_utf8(v@),
            None => text_view(*p) is None,
        }),
{
    match p {
        CallerPtr::Null => None,
        CallerPtr::Data { bytes } => {
            if validate_utf8(bytes.as_slice()) {
                Some(bytes)
            } else {
                None
            }
        },
    }
}

/// Law: a non-null pointer to well-formed text yields a present text view
/// whose contents are exactly the bytes in front of the terminator, and a
/// present raw view of the same bytes.
pub proof fn lemma_text_borrow_present(p: CallerPtr)
    requires
        p is Data,
        is_utf8(p.bytes_of()),
    ensures
        text_view(p) == Some(p.bytes_of()),
        raw_view(p) == Some(p.bytes_of()),
{
}

/// Law: a non-null pointer to bytes that are not well-formed text yields
/// an absent text view, while the raw view of the same pointer is still
/// present.
pub proof fn lemma_text_borrow_absent(p: CallerPtr)
    requires
        p is Data,
        !is_utf8(p.bytes_of()),
    ensures
        text_view(p) is None,
        raw_view(p) == Some(p.bytes_of()),
{
}

/// Law: borrowing the null pointer yields absent, for both the raw and
/// the text view.
pub proof fn lemma_null_borrow_absent()
    ensures
        raw_view(CallerPtr::Null) is None,
        text_view(CallerPtr::Null) is None,
{
}

} // verus!
