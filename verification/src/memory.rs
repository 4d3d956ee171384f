//! Transfer buffers: byte data that moves between the host and the cache.

use vstd::prelude::*;
use vstd::slice::slice_to_vec;

verus! {

/// The value of a [`Buffer`]: whether there is one, who owns its bytes, and
/// the bytes.
#[verifier::ext_equal]
pub enum BufferView {
    /// No buffer at all.
    Absent,
    /// Bytes that stay with whoever lent them.
    Borrowed(Seq<u8>),
    /// Bytes whose ownership travels with the buffer.
    Owned(Seq<u8>),
}

impl BufferView {
    /// The bytes the buffer gives access to; none where there is no buffer.
    pub open spec fn bytes(self) -> Seq<u8> {
        match self {
            BufferView::Absent => Seq::empty(),
            BufferView::Borrowed(bytes) => bytes,
            BufferView::Owned(bytes) => bytes,
        }
    }

    /// Whether an operation that needs content finds none here: there is no
    /// buffer, or it has length zero.
    pub open spec fn is_vacant(self) -> bool {
        self.bytes().len() == 0
    }
}

/// A byte buffer handed across the boundary.
///
/// A borrowed buffer gives access to memory that stays with its lender. An
/// owned buffer carries its bytes with it; whoever holds it last gives them
/// up, once, with [`Buffer::consume`].
#[derive(Debug)]
pub enum Buffer<'a> {
    /// No buffer at all.
    Absent,
    /// A view of bytes that the other side keeps.
    Borrowed(&'a [u8]),
    /// Bytes that belong to the holder of this value.
    Owned(Vec<u8>),
}

impl<'a> View for Buffer<'a> {
    type V = BufferView;

    open spec fn view(&self) -> BufferView {
        match *self {
            Buffer::Absent => BufferView::Absent,
            Buffer::Borrowed(source) => BufferView::Borrowed(source@),
            Buffer::Owned(bytes) => BufferView::Owned(bytes@),
        }
    }
}

impl<'a> Buffer<'a> {
    /// A borrowed view of `source`. Nothing is copied and nothing changes
    /// hands; a slice of length zero gives a buffer that is present but vacant.
    pub fn from_bytes(source: &'a [u8]) -> (buffer: Self)
        ensures
            buffer@ == BufferView::Borrowed(source@),
    {
        Buffer::Borrowed(source)
    }

    /// An owned buffer made of `bytes`, which it takes over.
    pub fn from_vec(bytes: Vec<u8>) -> (buffer: Self)
        ensures
            buffer@ == BufferView::Owned(bytes@),
    {
        Buffer::Owned(bytes)
    }

    /// The number of bytes in the buffer; zero where there is no buffer.
    pub fn len(&self) -> (n: usize)
        ensures
            n == self@.bytes().len(),
    {
        match self {
            Buffer::Absent => 0,
            Buffer::Borrowed(source) => source.len(),
            Buffer::Owned(bytes) => bytes.len(),
        }
    }

    /// Whether the buffer is absent or of length zero.
    pub fn is_empty(&self) -> (vacant: bool)
        ensures
            vacant == self@.is_vacant(),
    {
        self.len() == 0
    }

    /// The content of the buffer, if it has any. An absent buffer and a buffer
    /// of length zero both read as `None`.
    pub fn read(&self) -> (content: Option<&[u8]>)
        ensures
            content is None <==> self@.is_vacant(),
            content matches Some(bytes) ==> bytes@ == self@.bytes(),
    {
        match self {
            Buffer::Absent => None,
            Buffer::Borrowed(source) => {
                if source.len() == 0 {
                    None
                } else {
                    Some(*source)
                }
            },
            Buffer::Owned(bytes) => {
                if bytes.len() == 0 {
                    None
                } else {
                    Some(bytes.as_slice())
                }
            },
        }
    }

    /// Takes the bytes out and leaves no buffer behind, so that they cannot be
    /// taken a second time. The bytes of an owned buffer are moved out; those
    /// of a borrowed one stay with their lender and are copied.
    pub fn consume(&mut self) -> (bytes: Vec<u8>)
        ensures
            bytes@ == old(self)@.bytes(),
            final(self)@ == BufferView::Absent,
    {
        let mut taken = Buffer::Absent;
        core::mem::swap(self, &mut taken);
        match taken {
            Buffer::Absent => Vec::new(),
            Buffer::Borrowed(source) => slice_to_vec(source),
            Buffer::Owned(bytes) => bytes,
        }
    }
}

impl<'a> Default for Buffer<'a> {
    /// The absent buffer.
    fn default() -> (buffer: Self)
        ensures
            buffer@ == BufferView::Absent,
    {
        Buffer::Absent
    }
}

impl<'a> From<&'a [u8]> for Buffer<'a> {
    /// A borrowed view of `source`, as [`Buffer::from_bytes`] gives.
    fn from(source: &'a [u8]) -> (buffer: Self) {
        Buffer::Borrowed(source)
    }
}

impl<'a> vstd::std_specs::convert::FromSpecImpl<&'a [u8]> for Buffer<'a> {
    open spec fn obeys_from_spec() -> bool {
        true
    }

    open spec fn from_spec(source: &'a [u8]) -> Self {
        Buffer::Borrowed(source)
    }
}

} // verus!
