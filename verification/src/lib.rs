//! Byte-buffer exchange across a boundary between two memory domains: one
//! with manual allocation (the native side) and one with garbage collection
//! (the managed side).
//!
//! Three types carry bytes across that boundary, in increasing order of
//! ownership responsibility:
//!
//! - [`ByteSliceView`]: a read-only window into memory owned by the caller,
//!   valid only for the duration of one call.
//! - [`U8SliceView`]: the same shape flowing the opposite way, constructed by
//!   the callee so the caller can copy bytes out during the call.
//! - [`UnmanagedVector`]: an owned, relocatable byte buffer whose ownership
//!   crosses the boundary exactly once and that must be released exactly once,
//!   either by [`UnmanagedVector::consume`] or by [`destroy_unmanaged_vector`].
//!
//! Every type distinguishes "no value" from "a present but empty value": the
//! two must never be conflated by any operation. On the boundary itself each
//! type travels as a fixed-layout record of a presence flag plus raw pointer
//! fields; here the same states are carried as an optional slice or vector, so
//! that presence and contents are explicit and every operation is verified.

use vstd::prelude::*;

verus! {

/// A read-only view into a byte slice owned by the caller.
///
/// Use this for the current call only: the view is only a reference, never a
/// resource, and must not outlive the call that received it. A caller that
/// needs the bytes past the call copies them out with
/// [`ByteSliceView::to_owned`].
///
/// An absent ("nil") view is fully supported and distinct from a view of an
/// empty slice.
pub struct ByteSliceView<'a> {
    source: Option<&'a [u8]>,
}

impl<'a> View for ByteSliceView<'a> {
    type V = Option<Seq<u8>>;

    closed spec fn view(&self) -> Option<Seq<u8>> {
        match self.source {
            Some(data) => Some(data@),
            None => None,
        }
    }
}

impl<'a> ByteSliceView<'a> {
    /// Wraps an in-scope byte region in a present view. No allocation and no
    /// copy: the view borrows the caller's bytes for the current call only.
    pub fn new(source: &'a [u8]) -> (view: Self)
        ensures
            view@ == Some(source@),
    {
        Self { source: Some(source) }
    }

    /// The canonical absent view: "no value", distinct from a view of an
    /// empty slice.
    pub fn nil() -> (view: Self)
        ensures
            view@ is None,
    {
        Self { source: None }
    }

    /// Provides a reference to the included data to be parsed or copied
    /// elsewhere, or `None` for the absent view.
    pub fn read(&self) -> (r: Option<&[u8]>)
        ensures
            r matches Some(bytes) ==> self@ == Some(bytes@),
            r is None ==> self@ is None,
    {
        match self.source {
            Some(data) => Some(data),
            None => None,
        }
    }

    /// Creates an owned copy of the viewed bytes that can safely be stored
    /// and mutated after the call, or `None` for the absent view.
    pub fn to_owned(&self) -> (r: Option<Vec<u8>>)
        ensures
            r matches Some(bytes) ==> self@ == Some(bytes@),
            r is None ==> self@ is None,
    {
        match self.read() {
            Some(data) => Some(vstd::slice::slice_to_vec(data)),
            None => None,
        }
    }
}

/// A read-only view into an optional byte slice owned by the constructing
/// side, built so the other side of the boundary can copy the bytes out
/// during the current call.
///
/// This is the counterpart of [`ByteSliceView`] for the opposite direction of
/// travel: the constructing side already owns the data, so the type has no
/// read operations of its own — it exists purely as a transport shape, valid
/// only for the one call it is handed to.
pub struct U8SliceView<'a> {
    source: Option<&'a [u8]>,
}

impl<'a> View for U8SliceView<'a> {
    type V = Option<Seq<u8>>;

    closed spec fn view(&self) -> Option<Seq<u8>> {
        match self.source {
            Some(data) => Some(data@),
            None => None,
        }
    }
}

impl<'a> U8SliceView<'a> {
    /// Wraps an optional in-scope byte region. No allocation and no copy;
    /// `None` gives the absent view, distinct from a view of an empty slice.
    pub fn new(source: Option<&'a [u8]>) -> (view: Self)
        ensures
            source matches Some(data) ==> view@ == Some(data@),
            source is None ==> view@ is None,
    {
        match source {
            Some(data) => Self { source: Some(data) },
            None => Self { source: None },
        }
    }
}

/// An optional, owned byte buffer that requires explicit creation and
/// destruction and whose ownership can cross the boundary.
///
/// Ownership is the right and the obligation to release an `UnmanagedVector`
/// exactly once, by [`UnmanagedVector::consume`] or by
/// [`destroy_unmanaged_vector`]. Both take the buffer by value, so a released
/// instance is structurally unreachable and a second release of the same
/// instance is impossible.
///
/// An absent buffer (`new(None)`, or [`Default::default`]) is distinct from a
/// present, empty one (`new(Some(vec![]))`), and every operation keeps the two
/// apart.
pub struct UnmanagedVector {
    is_none: bool,
    data: Vec<u8>,
}

impl View for UnmanagedVector {
    type V = Option<Seq<u8>>;

    closed spec fn view(&self) -> Option<Seq<u8>> {
        if self.is_none {
            None
        } else {
            Some(self.data@)
        }
    }
}

impl UnmanagedVector {
    /// Takes over an optional, already-allocated byte vector without copying.
    /// The source is moved in, so its original owner cannot touch it again:
    /// ownership is relinquished, not shared.
    pub fn new(source: Option<Vec<u8>>) -> (v: Self)
        ensures
            v@ == opt_bytes(source),
    {
        match source {
            Some(data) => Self { is_none: false, data },
            None => Self { is_none: true, data: Vec::new() },
        }
    }

    /// True exactly when this buffer is absent ("no value").
    pub fn is_none(&self) -> (r: bool)
        ensures
            r <==> self@ is None,
    {
        self.is_none
    }

    /// True exactly when this buffer is present, possibly with empty contents.
    pub fn is_some(&self) -> (r: bool)
        ensures
            r <==> self@ is Some,
    {
        !self.is_none()
    }

    /// Turns this buffer into a regular, owned vector — the sole extraction
    /// operation, and one half of the exactly-once release obligation.
    ///
    /// Takes the buffer by value: after the call the instance is gone and
    /// cannot be consumed or destroyed a second time.
    pub fn consume(self) -> (r: Option<Vec<u8>>)
        ensures
            opt_bytes(r) == self@,
    {
        if self.is_none {
            None
        } else {
            Some(self.data)
        }
    }
}

impl Default for UnmanagedVector {
    /// The canonical absent buffer: a safe placeholder for an out-parameter
    /// that a callee will overwrite, or an optional result with no data.
    fn default() -> (v: Self)
        ensures
            v@ is None,
    {
        Self { is_none: true, data: Vec::new() }
    }
}

/// The byte sequence an optional byte vector holds, absent for `None`.
pub open spec fn opt_bytes(v: Option<Vec<u8>>) -> Option<Seq<u8>> {
    match v {
        Some(data) => Some(data@),
        None => None,
    }
}

/// The buffer a copy from a foreign byte region yields: absent when the nil
/// flag is set, otherwise present and holding exactly the region's bytes —
/// empty region included.
pub open spec fn region_copy(nil: bool, bytes: Seq<u8>) -> Option<Seq<u8>> {
    if nil {
        None
    } else {
        Some(bytes)
    }
}

/// Builds an [`UnmanagedVector`] by copying bytes out of a foreign memory
/// region, the one construction path open to the managed side: the foreign
/// allocator cannot relinquish its memory to this side, so the bytes are
/// copied into a freshly allocated, natively owned buffer.
///
/// With the nil flag set the region is ignored and the absent buffer comes
/// back. An empty region yields a present, zero-length buffer, never the
/// absent one. The copy is independent of the source region from the moment
/// this returns.
pub fn new_unmanaged_vector(nil: bool, source: &[u8]) -> (v: UnmanagedVector)
    ensures
        v@ == region_copy(nil, source@),
{
    if nil {
        UnmanagedVector::new(None)
    } else if source.len() == 0 {
        UnmanagedVector::new(Some(Vec::new()))
    } else {
        let copy = vstd::slice::slice_to_vec(source);
        UnmanagedVector::new(Some(copy))
    }
}

/// Releases an [`UnmanagedVector`] that is not otherwise consumed: the same
/// release as [`UnmanagedVector::consume`] with the extracted value discarded.
/// Call it exactly once per buffer whose bytes are no longer needed.
pub fn destroy_unmanaged_vector(v: UnmanagedVector) {
    let _ = v.consume();
}

/// Law: a buffer built from owned bytes is present, and consuming it yields
/// exactly those bytes — for every byte vector, the empty one included,
/// construction from owned bytes followed by consumption is a round trip.
///
/// The hypotheses are the contracts of [`UnmanagedVector::new`] on
/// `Some(source)` and of [`UnmanagedVector::consume`] on the buffer so built.
pub proof fn lemma_owned_bytes_round_trip(source: Vec<u8>, built: UnmanagedVector, taken: Option<Vec<u8>>)
    requires
        built@ == opt_bytes(Some(source)),
        opt_bytes(taken) == built@,
    ensures
        taken matches Some(bytes) && bytes@ == source@,
{
}

/// Law: the absent buffer — what construct-absent and the default yield —
/// consumes to no value.
///
/// The second hypothesis is the contract of [`UnmanagedVector::consume`].
pub proof fn lemma_absent_buffer_consumes_to_none(built: UnmanagedVector, taken: Option<Vec<u8>>)
    requires
        built@ is None,
        opt_bytes(taken) == built@,
    ensures
        taken is None,
{
}

/// Law: with the nil flag set, a copy from a foreign region is absent,
/// whatever bytes the region holds.
pub proof fn lemma_nil_region_copy_is_absent(bytes: Seq<u8>)
    ensures
        region_copy(true, bytes) is None,
{
}

/// Law: with the nil flag clear, a copy from a foreign region is present and
/// holds exactly the region's bytes, independent of the region itself.
pub proof fn lemma_region_copy_preserves_bytes(bytes: Seq<u8>)
    ensures
        region_copy(false, bytes) == Some(bytes),
{
}

/// Law: a copy of an empty region with the nil flag clear is a present,
/// zero-length buffer, and that state is distinct from the absent buffer.
pub proof fn lemma_empty_region_copy_is_present_not_absent()
    ensures
        region_copy(false, Seq::<u8>::empty()) == Some(Seq::<u8>::empty()),
        region_copy(false, Seq::<u8>::empty()) != region_copy(true, Seq::<u8>::empty()),
{
}

} // verus!
