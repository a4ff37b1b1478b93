//! Incremental digests of an ordered byte stream: CRC-32, MD5 and SHA-256
//! side by side, fed chunk by chunk in arrival order.
//!
//! The three algorithms themselves are not verified here. They are the
//! `crc32fast`, `md5` and `sha2` crates, reached through the small functions
//! at the top of this file, whose contracts are taken on trust. Everything
//! built on them is proved from those contracts.

use vstd::prelude::*;
use vstd::array::array_as_slice;

verus! {

#[verifier::external_type_specification]
#[verifier::external_body]
pub struct ExCrc32Hasher(crc32fast::Hasher);

#[verifier::external_type_specification]
#[verifier::external_body]
pub struct ExMd5Context(md5::Context);

/// A running SHA-256 computation of the `sha2` crate. `sha2::Sha256` is an
/// alias into a tower of generic types, so the value is kept behind this
/// struct and never looked into.
#[verifier::external_body]
pub struct Sha256State {
    inner: sha2::Sha256,
}

/// The bytes that a running CRC-32 computation has processed, in order.
pub uninterp spec fn crc32_fed(h: crc32fast::Hasher) -> Seq<u8>;

/// The bytes that a running MD5 computation has processed, in order.
pub uninterp spec fn md5_fed(ctx: md5::Context) -> Seq<u8>;

/// The bytes that a running SHA-256 computation has processed, in order.
pub uninterp spec fn sha256_fed(h: Sha256State) -> Seq<u8>;

/// The CRC-32 (IEEE) checksum of a byte sequence, as `crc32fast` computes it.
pub uninterp spec fn crc32_of(bytes: Seq<u8>) -> u32;

/// The 16-byte MD5 digest of a byte sequence, as `md5` computes it.
pub uninterp spec fn md5_of(bytes: Seq<u8>) -> Seq<u8>;

/// The 32-byte SHA-256 digest of a byte sequence, as `sha2` computes it.
pub uninterp spec fn sha256_of(bytes: Seq<u8>) -> Seq<u8>;

/// `crc32fast::Hasher::new`: a computation that has processed nothing yet.
#[verifier::external_body]
fn crc32_new() -> (h: crc32fast::Hasher)
    ensures
        crc32_fed(h) == Seq::<u8>::empty(),
{
    crc32fast::Hasher::new()
}

/// `crc32fast::Hasher::update`: processes `chunk` after what was processed
/// before. The hasher counts its input in a `u64`, which must not overflow.
#[verifier::external_body]
fn crc32_update(h: &mut crc32fast::Hasher, chunk: &[u8])
    requires
        crc32_fed(*old(h)).len() + chunk@.len() <= u64::MAX,
    ensures
        crc32_fed(*final(h)) == crc32_fed(*old(h)) + chunk@,
{
    h.update(chunk)
}

/// `crc32fast::Hasher::finalize`: the checksum of everything processed.
#[verifier::external_body]
fn crc32_finalize(h: crc32fast::Hasher) -> (sum: u32)
    ensures
        sum == crc32_of(crc32_fed(h)),
{
    h.finalize()
}

/// `md5::Context::new`: a computation that has processed nothing yet.
#[verifier::external_body]
fn md5_new() -> (ctx: md5::Context)
    ensures
        md5_fed(ctx) == Seq::<u8>::empty(),
{
    md5::Context::new()
}

/// `md5::Context::consume`: processes `chunk` after what was processed
/// before.
#[verifier::external_body]
fn md5_consume(ctx: &mut md5::Context, chunk: &[u8])
    ensures
        md5_fed(*final(ctx)) == md5_fed(*old(ctx)) + chunk@,
{
    ctx.consume(chunk)
}

/// `md5::Context::finalize`: the digest of everything processed.
#[verifier::external_body]
fn md5_finalize(ctx: md5::Context) -> (digest: [u8; 16])
    ensures
        digest@ == md5_of(md5_fed(ctx)),
{
    ctx.finalize().0
}

/// `sha2::Digest::new` for `Sha256`: a computation that has processed nothing
/// yet.
#[verifier::external_body]
fn sha256_new() -> (h: Sha256State)
    ensures
        sha256_fed(h) == Seq::<u8>::empty(),
{
    Sha256State { inner: sha2::Digest::new() }
}

/// `sha2::Digest::update` for `Sha256`: processes `chunk` after what was
/// processed before. The hasher counts its blocks in a `u64`.
#[verifier::external_body]
fn sha256_update(h: &mut Sha256State, chunk: &[u8])
    requires
        sha256_fed(*old(h)).len() + chunk@.len() <= u64::MAX,
    ensures
        sha256_fed(*final(h)) == sha256_fed(*old(h)) + chunk@,
{
    sha2::Digest::update(&mut h.inner, chunk)
}

/// `sha2::Digest::finalize` for `Sha256`: the digest of everything processed.
/// The padding holds the input's length in bits as a `u64`, which must not
/// overflow.
#[verifier::external_body]
fn sha256_finalize(h: Sha256State) -> (digest: [u8; 32])
    requires
        8 * sha256_fed(h).len() <= u64::MAX,
    ensures
        digest@ == sha256_of(sha256_fed(h)),
{
    sha2::Digest::finalize(h.inner).into()
}

/// `hex::encode`: two lowercase hexadecimal digits for each byte, in order.
#[verifier::external_body]
fn hex_encode(bytes: &[u8]) -> (text: String)
    ensures
        text@ == hex_of(bytes@),
{
    hex::encode(bytes)
}

/// The most bytes that one accumulator takes: SHA-256 stores the length of
/// its input in bits in 64 bits.
pub const MAX_INPUT_LEN: u64 = 0x1fff_ffff_ffff_ffff;

/// The lowercase hexadecimal digit for a value below sixteen.
pub open spec fn hex_digit(nibble: int) -> char {
    if nibble < 10 {
        ('0' as int + nibble) as char
    } else {
        ('a' as int + nibble - 10) as char
    }
}

/// The lowercase hexadecimal text of a byte sequence: for each byte its high
/// digit, then its low digit.
pub open spec fn hex_of(bytes: Seq<u8>) -> Seq<char> {
    Seq::new(
        2 * bytes.len(),
        |i: int|
            if i % 2 == 0 {
                hex_digit(bytes[i / 2] as int / 16)
            } else {
                hex_digit(bytes[i / 2] as int % 16)
            },
    )
}

/// The four bytes of a 32-bit number, most significant first.
pub open spec fn be_bytes(x: u32) -> Seq<u8> {
    seq![
        (x as int / 0x100_0000) as u8,
        (x as int / 0x1_0000 % 0x100) as u8,
        (x as int / 0x100 % 0x100) as u8,
        (x as int % 0x100) as u8,
    ]
}

/// The three digests of one byte sequence.
pub struct DigestValues {
    pub crc32: u32,
    pub md5: Seq<u8>,
    pub sha256: Seq<u8>,
}

/// The digests of `bytes`.
pub open spec fn digests_of(bytes: Seq<u8>) -> DigestValues {
    DigestValues { crc32: crc32_of(bytes), md5: md5_of(bytes), sha256: sha256_of(bytes) }
}

/// What an accumulator has absorbed after being fed `chunks` one after the
/// other, starting empty.
pub open spec fn fed_by(chunks: Seq<Seq<u8>>) -> Seq<u8>
    decreases chunks.len(),
{
    if chunks.len() == 0 {
        Seq::empty()
    } else {
        fed_by(chunks.drop_last()) + chunks.last()
    }
}

/// Whether `cuts` lists chunk boundaries within `bytes`: it starts at 0, ends
/// at the length, and never steps back. Equal neighbours give an empty chunk.
pub open spec fn valid_cuts(bytes: Seq<u8>, cuts: Seq<int>) -> bool {
    &&& cuts.len() >= 1
    &&& cuts[0] == 0
    &&& cuts.last() == bytes.len()
    &&& forall|i: int| 0 <= i < cuts.len() - 1 ==> cuts[i] <= #[trigger] cuts[i + 1]
}

/// The chunks that `bytes` falls into when cut at `cuts`.
pub open spec fn chunks_at(bytes: Seq<u8>, cuts: Seq<int>) -> Seq<Seq<u8>> {
    Seq::new((cuts.len() - 1) as nat, |i: int| bytes.subrange(cuts[i], cuts[i + 1]))
}

/// The digests of a finished stream, as the three crates returned them.
#[derive(Debug, Clone, Copy, PartialEq, Eq)]
pub struct Digests {
    pub crc32: u32,
    pub md5: [u8; 16],
    pub sha256: [u8; 32],
}

impl View for Digests {
    type V = DigestValues;

    open spec fn view(&self) -> DigestValues {
        DigestValues { crc32: self.crc32, md5: self.md5@, sha256: self.sha256@ }
    }
}

impl Digests {
    /// The CRC-32 as eight hexadecimal digits.
    pub fn crc32_hex(&self) -> (text: String)
        ensures
            text@ == hex_of(be_bytes(self.crc32)),
    {
        let x: u32 = self.crc32;
        let b0: u8 = (x >> 24) as u8;
        let b1: u8 = ((x >> 16) & 0xff) as u8;
        let b2: u8 = ((x >> 8) & 0xff) as u8;
        let b3: u8 = (x & 0xff) as u8;
        proof {
            assert(x >> 24 == x / 0x100_0000) by (bit_vector);
            assert((x >> 16) & 0xff == x / 0x1_0000 % 0x100) by (bit_vector);
            assert((x >> 8) & 0xff == x / 0x100 % 0x100) by (bit_vector);
            assert(x & 0xff == x % 0x100) by (bit_vector);
        }
        let bytes: [u8; 4] = [b0, b1, b2, b3];
        assert(bytes@ =~= be_bytes(x));
        hex_encode(array_as_slice(&bytes))
    }

    /// The MD5 digest as 32 hexadecimal digits.
    pub fn md5_hex(&self) -> (text: String)
        ensures
            text@ == hex_of(self@.md5),
    {
        hex_encode(array_as_slice(&self.md5))
    }

    /// The SHA-256 digest as 64 hexadecimal digits.
    pub fn sha256_hex(&self) -> (text: String)
        ensures
            text@ == hex_of(self@.sha256),
    {
        hex_encode(array_as_slice(&self.sha256))
    }
}

/// One running state per algorithm, all three fed the same bytes.
pub struct DigestAccumulator {
    crc32: crc32fast::Hasher,
    md5: md5::Context,
    sha256: Sha256State,
    count: u64,
}

impl DigestAccumulator {
    /// Every byte seen so far, in the order of arrival.
    pub closed spec fn absorbed(&self) -> Seq<u8> {
        crc32_fed(self.crc32)
    }

    /// The three states have seen the same bytes, and the counter agrees.
    pub closed spec fn wf(&self) -> bool {
        &&& md5_fed(self.md5) == crc32_fed(self.crc32)
        &&& sha256_fed(self.sha256) == crc32_fed(self.crc32)
        &&& self.count == crc32_fed(self.crc32).len()
        &&& self.count <= MAX_INPUT_LEN
    }

    /// An accumulator that has seen nothing.
    pub fn new() -> (acc: Self)
        ensures
            acc.wf(),
            acc.absorbed() == Seq::<u8>::empty(),
    {
        DigestAccumulator { crc32: crc32_new(), md5: md5_new(), sha256: sha256_new(), count: 0 }
    }

    /// The number of bytes seen so far.
    pub fn len(&self) -> (n: u64)
        requires
            self.wf(),
        ensures
            n == self.absorbed().len(),
            n <= MAX_INPUT_LEN,
    {
        self.count
    }

    /// Whether `n` more bytes still fit under `MAX_INPUT_LEN`.
    pub fn has_room(&self, n: usize) -> (fits: bool)
        requires
            self.wf(),
        ensures
            fits == (self.absorbed().len() + n <= MAX_INPUT_LEN),
    {
        n as u64 <= MAX_INPUT_LEN - self.count
    }

    /// Feeds `chunk` to all three algorithms, after everything fed before.
    pub fn update(&mut self, chunk: &[u8])
        requires
            old(self).wf(),
            old(self).absorbed().len() + chunk@.len() <= MAX_INPUT_LEN,
        ensures
            final(self).wf(),
            final(self).absorbed() == old(self).absorbed() + chunk@,
    {
        crc32_update(&mut self.crc32, chunk);
        md5_consume(&mut self.md5, chunk);
        sha256_update(&mut self.sha256, chunk);
        self.count = self.count + chunk.len() as u64;
    }

    /// Ends the stream: the digests of exactly the bytes seen.
    pub fn finalize(self) -> (digests: Digests)
        requires
            self.wf(),
        ensures
            digests@ == digests_of(self.absorbed()),
    {
        Digests {
            crc32: crc32_finalize(self.crc32),
            md5: md5_finalize(self.md5),
            sha256: sha256_finalize(self.sha256),
        }
    }
}

/// The digests of `bytes`, computed in one pass.
pub fn digest_all(bytes: &[u8]) -> (digests: Digests)
    requires
        bytes@.len() <= MAX_INPUT_LEN,
    ensures
        digests@ == digests_of(bytes@),
{
    let mut acc = DigestAccumulator::new();
    acc.update(bytes);
    assert(Seq::<u8>::empty() + bytes@ =~= bytes@);
    acc.finalize()
}

/// The digests of the bytes that `chunks` add up to, computed incrementally:
/// one update for each chunk, in order.
pub fn digest_chunks(chunks: &Vec<Vec<u8>>) -> (digests: Digests)
    requires
        fed_by(chunks.deep_view()).len() <= MAX_INPUT_LEN,
    ensures
        digests@ == digests_of(fed_by(chunks.deep_view())),
{
    let ghost all = chunks.deep_view();
    let mut acc = DigestAccumulator::new();
    let mut i: usize = 0;
    assert(all.take(0) =~= Seq::<Seq<u8>>::empty());
    while i < chunks.len()
        invariant
            i <= chunks.len(),
            all == chunks.deep_view(),
            fed_by(all).len() <= MAX_INPUT_LEN,
            acc.wf(),
            acc.absorbed() == fed_by(all.take(i as int)),
        decreases chunks.len() - i,
    {
        proof {
            assert(all.take(i + 1) =~= all.take(i as int).push(all[i as int]));
            lemma_fed_by_push(all.take(i as int), all[i as int]);
            lemma_fed_by_grows(all, i + 1);
            assert(all[i as int] == chunks@[i as int]@);
        }
        acc.update(chunks[i].as_slice());
        i = i + 1;
    }
    assert(all.take(i as int) =~= all);
    acc.finalize()
}

/// A prefix of the chunks adds up to no more bytes than all of them.
pub proof fn lemma_fed_by_grows(chunks: Seq<Seq<u8>>, n: int)
    requires
        0 <= n <= chunks.len(),
    ensures
        fed_by(chunks.take(n)).len() <= fed_by(chunks).len(),
    decreases chunks.len() - n,
{
    if n < chunks.len() {
        lemma_fed_by_grows(chunks, n + 1);
        assert(chunks.take(n + 1) =~= chunks.take(n).push(chunks[n]));
        lemma_fed_by_push(chunks.take(n), chunks[n]);
    } else {
        assert(chunks.take(n) =~= chunks);
    }
}

/// Feeding chunk after chunk is feeding their concatenation.
pub proof fn lemma_fed_by_push(chunks: Seq<Seq<u8>>, chunk: Seq<u8>)
    ensures
        fed_by(chunks.push(chunk)) == fed_by(chunks) + chunk,
{
    assert(chunks.push(chunk).drop_last() =~= chunks);
}

/// Cut at any boundaries and fed in order, the chunks of a byte sequence add
/// up to that sequence again.
pub proof fn lemma_cuts_restore(bytes: Seq<u8>, cuts: Seq<int>)
    requires
        valid_cuts(bytes, cuts),
    ensures
        fed_by(chunks_at(bytes, cuts)) == bytes,
    decreases cuts.len(),
{
    let chunks = chunks_at(bytes, cuts);
    if cuts.len() == 1 {
        assert(bytes =~= Seq::<u8>::empty());
    } else {
        let before = cuts.drop_last();
        let mid = before.last();
        assert(mid == cuts[cuts.len() - 2]);
        assert(0 <= mid <= bytes.len()) by {
            lemma_cuts_in_range(bytes, cuts, cuts.len() - 2);
        }
        let head = bytes.subrange(0, mid);
        assert(valid_cuts(head, before)) by {
            assert forall|i: int| 0 <= i < before.len() - 1 implies before[i] <= #[trigger] before[i
                + 1] by {
                assert(cuts[i] <= cuts[i + 1]);
            }
        }
        lemma_cuts_restore(head, before);
        let rest = chunks.drop_last();
        let head_chunks = chunks_at(head, before);
        assert(rest =~= head_chunks) by {
            assert forall|i: int| 0 <= i < before.len() - 1 implies #[trigger] rest[i]
                == head_chunks[i] by {
                lemma_cuts_in_range(bytes, cuts, i);
                lemma_cuts_in_range(bytes, cuts, i + 1);
                lemma_cuts_ordered(bytes, cuts, i + 1, cuts.len() - 2);
                assert(cuts[i] <= cuts[i + 1]);
                assert(bytes.subrange(cuts[i], cuts[i + 1]) =~= head.subrange(
                    before[i],
                    before[i + 1],
                ));
            }
        }
        assert(chunks.last() == bytes.subrange(mid, bytes.len() as int));
        assert(head + bytes.subrange(mid, bytes.len() as int) =~= bytes);
    }
}

/// Boundaries never step back, so an earlier one is at most a later one.
proof fn lemma_cuts_ordered(bytes: Seq<u8>, cuts: Seq<int>, i: int, j: int)
    requires
        valid_cuts(bytes, cuts),
        0 <= i <= j < cuts.len(),
    ensures
        cuts[i] <= cuts[j],
    decreases j - i,
{
    if i < j {
        lemma_cuts_ordered(bytes, cuts, i, j - 1);
        assert(cuts[j - 1] <= cuts[j - 1 + 1]);
    }
}

/// Every boundary lies within the byte sequence.
proof fn lemma_cuts_in_range(bytes: Seq<u8>, cuts: Seq<int>, i: int)
    requires
        valid_cuts(bytes, cuts),
        0 <= i < cuts.len(),
    ensures
        0 <= cuts[i] <= bytes.len(),
{
    lemma_cuts_ordered(bytes, cuts, 0, i);
    lemma_cuts_ordered(bytes, cuts, i, cuts.len() - 1);
}

/// Hashing a byte sequence in one pass, or incrementally over chunks cut at
/// arbitrary boundaries, gives the same CRC-32, MD5 and SHA-256.
pub proof fn lemma_chunking_is_irrelevant(bytes: Seq<u8>, cuts: Seq<int>)
    requires
        valid_cuts(bytes, cuts),
    ensures
        digests_of(fed_by(chunks_at(bytes, cuts))) == digests_of(fed_by(seq![bytes])),
{
    lemma_cuts_restore(bytes, cuts);
    lemma_fed_by_push(Seq::empty(), bytes);
    assert(Seq::<Seq<u8>>::empty().push(bytes) =~= seq![bytes]);
    assert(fed_by(Seq::<Seq<u8>>::empty()) + bytes =~= bytes);
}

} // verus!
