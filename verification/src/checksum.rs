//! The checksum of a module: the digest of its bytes, under which the engine
//! keeps it and the host asks for it again.

use vstd::prelude::*;
use vstd::slice::slice_to_vec;

use crate::error::{Error, ErrorView};

verus! {

/// The length of a checksum in bytes.
pub const CHECKSUM_LEN: usize = 32;

/// A checksum. It always has [`CHECKSUM_LEN`] bytes.
#[derive(Clone, Copy, Debug)]
pub struct Checksum {
    pub bytes: [u8; 32],
}

impl View for Checksum {
    type V = Seq<u8>;

    open spec fn view(&self) -> Seq<u8> {
        self.bytes@
    }
}

impl Checksum {
    /// The checksum made of `bytes`.
    pub fn new(bytes: [u8; 32]) -> (checksum: Checksum)
        ensures
            checksum@ == bytes@,
    {
        Checksum { bytes }
    }

    /// Reads a checksum from bytes. They are accepted if and only if there
    /// are exactly [`CHECKSUM_LEN`] of them.
    pub fn from_slice(bytes: &[u8]) -> (checksum: Result<Checksum, Error>)
        ensures
            checksum is Ok <==> bytes@.len() == CHECKSUM_LEN,
            checksum matches Ok(sum) ==> sum@ == bytes@,
            checksum matches Err(error) ==> error@ == ErrorView::ChecksumFormat,
    {
        if bytes.len() != CHECKSUM_LEN {
            return Err(Error::checksum_format());
        }
        let mut digest: [u8; 32] = [0u8; 32];
        let mut i: usize = 0;
        while i < CHECKSUM_LEN
            invariant
                i <= CHECKSUM_LEN,
                bytes@.len() == CHECKSUM_LEN,
                forall|k: int| 0 <= k < i ==> digest@[k] == bytes@[k],
            decreases CHECKSUM_LEN - i,
        {
            digest[i] = bytes[i];
            i += 1;
        }
        assert(digest@ =~= bytes@);
        Ok(Checksum { bytes: digest })
    }

    /// The bytes of the checksum.
    pub fn as_slice(&self) -> (bytes: &[u8])
        ensures
            bytes@ == self@,
    {
        self.bytes.as_slice()
    }

    /// A copy of the bytes of the checksum.
    pub fn to_vec(&self) -> (bytes: Vec<u8>)
        ensures
            bytes@ == self@,
            bytes@.len() == CHECKSUM_LEN,
    {
        slice_to_vec(self.bytes.as_slice())
    }
}

} // verus!
