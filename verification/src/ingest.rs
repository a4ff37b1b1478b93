//! Taking in one uploaded field: every chunk that has been written to
//! storage is counted and fed to the digests, in the order of arrival, and
//! the finished field is described by its size and its three digests.
//!
//! Writing to storage is the caller's part. The caller writes a chunk in
//! full, then hands the same chunk to `FieldIngest::accept`, and only then
//! asks the transport for the next one.

use vstd::prelude::*;
use crate::digest::{
    be_bytes, crc32_of, hex_of, md5_of, sha256_of, DigestAccumulator, MAX_INPUT_LEN,
};

verus! {

/// What is known of a stored field once its last byte is written: its size
/// and its digests as lowercase hexadecimal text.
#[derive(Debug, PartialEq, Eq)]
pub struct TempArtifact {
    pub size: u64,
    pub crc32: String,
    pub md5: String,
    pub sha256: String,
}

/// The plain content of a `TempArtifact`.
pub struct TempArtifactView {
    pub size: u64,
    pub crc32: Seq<char>,
    pub md5: Seq<char>,
    pub sha256: Seq<char>,
}

impl View for TempArtifact {
    type V = TempArtifactView;

    open spec fn view(&self) -> TempArtifactView {
        TempArtifactView {
            size: self.size,
            crc32: self.crc32@,
            md5: self.md5@,
            sha256: self.sha256@,
        }
    }
}

/// The artifact that describes the stored bytes `stored`.
pub open spec fn artifact_of(stored: Seq<u8>) -> TempArtifactView {
    TempArtifactView {
        size: stored.len() as u64,
        crc32: hex_of(be_bytes(crc32_of(stored))),
        md5: hex_of(md5_of(stored)),
        sha256: hex_of(sha256_of(stored)),
    }
}

/// One field on its way into storage.
pub struct FieldIngest {
    name: Option<String>,
    digests: DigestAccumulator,
}

impl FieldIngest {
    /// The name that the client declared for the field.
    pub closed spec fn name(&self) -> Option<Seq<char>> {
        self.name.deep_view()
    }

    /// The bytes written to storage so far.
    pub closed spec fn stored(&self) -> Seq<u8> {
        self.digests.absorbed()
    }

    /// The digests have seen exactly the stored bytes.
    pub closed spec fn wf(&self) -> bool {
        self.digests.wf()
    }

    /// A field of which nothing is stored yet.
    pub fn begin(name: Option<String>) -> (field: Self)
        ensures
            field.wf(),
            field.name() == name.deep_view(),
            field.stored() == Seq::<u8>::empty(),
    {
        FieldIngest { name, digests: DigestAccumulator::new() }
    }

    /// The number of bytes stored so far.
    pub fn size(&self) -> (size: u64)
        requires
            self.wf(),
        ensures
            size == self.stored().len(),
            size <= MAX_INPUT_LEN,
    {
        self.digests.len()
    }

    /// Whether a chunk of `n` more bytes can still be taken in.
    pub fn has_room(&self, n: usize) -> (fits: bool)
        requires
            self.wf(),
        ensures
            fits == (self.stored().len() + n <= MAX_INPUT_LEN),
    {
        self.digests.has_room(n)
    }

    /// Takes in a chunk that has just been written to storage in full.
    pub fn accept(&mut self, chunk: &[u8])
        requires
            old(self).wf(),
            old(self).stored().len() + chunk@.len() <= MAX_INPUT_LEN,
        ensures
            final(self).wf(),
            final(self).name() == old(self).name(),
            final(self).stored() == old(self).stored() + chunk@,
    {
        self.digests.update(chunk);
    }

    /// Ends the field after its last chunk: its name, and the description of
    /// exactly the bytes that were stored.
    pub fn finish(self) -> (done: (Option<String>, TempArtifact))
        requires
            self.wf(),
        ensures
            done.0.deep_view() == self.name(),
            done.1@ == artifact_of(self.stored()),
    {
        let size = self.digests.len();
        let digests = self.digests.finalize();
        let artifact = TempArtifact {
            size,
            crc32: digests.crc32_hex(),
            md5: digests.md5_hex(),
            sha256: digests.sha256_hex(),
        };
        (self.name, artifact)
    }
}

} // verus!
