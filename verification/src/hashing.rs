//! Stable hashing: a byte encoding of values that never changes between runs
//! or machines, fed to a content hash.
//!
//! Every hashable value contributes a well-defined byte stream — fixed-width
//! integers big-endian, lengths and positions included — and the hasher's
//! digest is a function of the absorbed stream alone. The encoding is
//! verified; the blake3 calls are trusted wrappers.

use vstd::prelude::*;

verus! {

/// The blake3 digest of a byte stream: 32 bytes, a function of the stream
/// alone.
pub uninterp spec fn blake3_digest(input: Seq<u8>) -> Seq<u8>;

#[verifier::external_type_specification]
#[verifier::external_body]
pub struct ExBlake3Hasher(blake3::Hasher);

/// The bytes a blake3 hasher has absorbed so far.
pub uninterp spec fn blake3_absorbed(h: &blake3::Hasher) -> Seq<u8>;

/// Relies on blake3::Hasher::new: a hasher that has absorbed nothing.
#[verifier::external_body]
fn b3_new() -> (r: blake3::Hasher)
    ensures
        blake3_absorbed(&r) == Seq::<u8>::empty(),
{
    blake3::Hasher::new()
}

/// Relies on blake3::Hasher::update: absorbs `bytes` after everything
/// absorbed before.
#[verifier::external_body]
fn b3_update(h: &mut blake3::Hasher, bytes: &[u8])
    ensures
        blake3_absorbed(final(h)) == blake3_absorbed(old(h)) + bytes@,
{
    h.update(bytes);
}

/// Relies on blake3::Hasher::finalize: the 32-byte blake3 digest of the
/// absorbed stream, which depends on those bytes alone.
#[verifier::external_body]
fn b3_finalize(h: &blake3::Hasher) -> (r: [u8; 32])
    ensures
        r@ == blake3_digest(blake3_absorbed(h)) && r@.len() == 32,
{
    *h.finalize().as_bytes()
}

/// A content hash, tagged with the algorithm that produced it.
#[derive(Debug, Clone, Copy, PartialEq, Eq, Hash)]
pub enum SupportedHash {
    /// A blake3 digest.
    Blake3([u8; 32]),
}

/// A hasher for one of the supported algorithms.
#[derive(Debug)]
pub enum SupportedHasher {
    /// Blake3.
    Blake3(blake3::Hasher),
}

impl SupportedHasher {
    /// The bytes absorbed so far.
    pub closed spec fn absorbed(&self) -> Seq<u8> {
        match self {
            SupportedHasher::Blake3(h) => blake3_absorbed(h),
        }
    }

    /// Whether `r` is the digest this hasher's algorithm gives the stream.
    pub open spec fn digest_matches(stream: Seq<u8>, r: SupportedHash) -> bool {
        match r {
            SupportedHash::Blake3(hash) => hash@ == blake3_digest(stream),
        }
    }

    /// A fresh blake3 hasher.
    pub fn blake3() -> (r: Self)
        ensures
            r.absorbed() == Seq::<u8>::empty(),
    {
        SupportedHasher::Blake3(b3_new())
    }

    /// Absorbs `bytes`.
    pub fn update(&mut self, bytes: &[u8])
        ensures
            final(self).absorbed() == old(self).absorbed() + bytes@,
    {
        match self {
            SupportedHasher::Blake3(h) => b3_update(h, bytes),
        }
    }

    /// The digest of everything absorbed.
    pub fn finalize(self) -> (r: SupportedHash)
        ensures
            Self::digest_matches(self.absorbed(), r),
    {
        match self {
            SupportedHasher::Blake3(h) => SupportedHash::Blake3(b3_finalize(&h)),
        }
    }
}

impl SupportedHash {
    /// A fresh hasher of the same algorithm as this hash.
    pub fn create_matching_hasher(&self) -> (r: SupportedHasher)
        ensures
            r.absorbed() == Seq::<u8>::empty(),
    {
        match self {
            SupportedHash::Blake3(_) => SupportedHasher::blake3(),
        }
    }

    /// The raw digest bytes.
    pub fn digest_bytes(&self) -> (r: &[u8])
        ensures
            self matches SupportedHash::Blake3(h) ==> r@ == h@,
    {
        match self {
            SupportedHash::Blake3(h) => h.as_slice(),
        }
    }
}

/// A hashing mechanism whose digest depends only on the absorbed bytes.
pub trait StableHasher: Sized {
    /// The type of hash the hasher produces.
    type Result;

    /// The bytes absorbed so far.
    spec fn absorbed(&self) -> Seq<u8>;

    /// Whether `r` is the digest of `stream` under this hasher.
    spec fn result_matches(stream: Seq<u8>, r: Self::Result) -> bool;

    /// Absorbs the given bytes.
    fn update(&mut self, bytes: &[u8])
        ensures
            final(self).absorbed() == old(self).absorbed() + bytes@,
    ;

    /// The digest of everything absorbed.
    fn finalize(self) -> (r: Self::Result)
        ensures
            Self::result_matches(self.absorbed(), r),
    ;
}

impl StableHasher for SupportedHasher {
    type Result = SupportedHash;

    closed spec fn absorbed(&self) -> Seq<u8> {
        SupportedHasher::absorbed(self)
    }

    open spec fn result_matches(stream: Seq<u8>, r: SupportedHash) -> bool {
        SupportedHasher::digest_matches(stream, r)
    }

    fn update(&mut self, bytes: &[u8])
        ensures
            final(self).absorbed() == old(self).absorbed() + bytes@,
    {
        SupportedHasher::update(self, bytes)
    }

    fn finalize(self) -> (r: SupportedHash)
        ensures
            Self::result_matches(self.absorbed(), r),
    {
        SupportedHasher::finalize(self)
    }
}

/// The 8 big-endian bytes of a 64-bit word.
pub open spec fn spec_be_bytes_64(n: u64) -> Seq<u8> {
    seq![
        ((n >> 56) & 0xff) as u8,
        ((n >> 48) & 0xff) as u8,
        ((n >> 40) & 0xff) as u8,
        ((n >> 32) & 0xff) as u8,
        ((n >> 24) & 0xff) as u8,
        ((n >> 16) & 0xff) as u8,
        ((n >> 8) & 0xff) as u8,
        (n & 0xff) as u8,
    ]
}

/// The 4 big-endian bytes of a 32-bit word.
pub open spec fn spec_be_bytes_32(n: u32) -> Seq<u8> {
    seq![((n >> 24) & 0xff) as u8, ((n >> 16) & 0xff) as u8, ((n >> 8) & 0xff) as u8, (n
        & 0xff) as u8]
}

/// The 2 big-endian bytes of a 16-bit word.
pub open spec fn spec_be_bytes_16(n: u16) -> Seq<u8> {
    seq![((n >> 8) & 0xff) as u8, (n & 0xff) as u8]
}

/// A value with a stable byte encoding.
pub trait StableHash {
    /// The bytes this value contributes to a stable hash.
    spec fn stable_bytes(&self) -> Seq<u8>;

    /// Absorbs this value's bytes into the hasher.
    fn update<H: StableHasher>(&self, h: &mut H)
        ensures
            final(h).absorbed() == old(h).absorbed() + self.stable_bytes(),
    ;
}

impl StableHash for u8 {
    /// One byte: itself.
    open spec fn stable_bytes(&self) -> Seq<u8> {
        seq![*self]
    }

    fn update<H: StableHasher>(&self, h: &mut H)
        ensures
            final(h).absorbed() == old(h).absorbed() + self.stable_bytes(),
    {
        let buf: [u8; 1] = [*self];
        proof {
            assert(buf@ =~= seq![*self]);
        }
        h.update(buf.as_slice());
    }
}

impl StableHash for bool {
    /// `0xff` for true, `0x00` for false.
    open spec fn stable_bytes(&self) -> Seq<u8> {
        if *self {
            seq![0xffu8]
        } else {
            seq![0x00u8]
        }
    }

    fn update<H: StableHasher>(&self, h: &mut H)
        ensures
            final(h).absorbed() == old(h).absorbed() + self.stable_bytes(),
    {
        let b: u8 = if *self {
            0xff
        } else {
            0x00
        };
        b.update(h);
    }
}

impl StableHash for u16 {
    /// Big-endian bytes.
    open spec fn stable_bytes(&self) -> Seq<u8> {
        spec_be_bytes_16(*self)
    }

    fn update<H: StableHasher>(&self, h: &mut H)
        ensures
            final(h).absorbed() == old(h).absorbed() + self.stable_bytes(),
    {
        let n = *self;
        let buf: [u8; 2] = [((n >> 8u16) & 0xff) as u8, (n & 0xff) as u8];
        proof {
            assert(buf@ =~= spec_be_bytes_16(n));
        }
        h.update(buf.as_slice());
    }
}

impl StableHash for u32 {
    /// Big-endian bytes.
    open spec fn stable_bytes(&self) -> Seq<u8> {
        spec_be_bytes_32(*self)
    }

    fn update<H: StableHasher>(&self, h: &mut H)
        ensures
            final(h).absorbed() == old(h).absorbed() + self.stable_bytes(),
    {
        let n = *self;
        let buf: [u8; 4] = [
            ((n >> 24u32) & 0xff) as u8,
            ((n >> 16u32) & 0xff) as u8,
            ((n >> 8u32) & 0xff) as u8,
            (n & 0xff) as u8,
        ];
        proof {
            assert(buf@ =~= spec_be_bytes_32(n));
        }
        h.update(buf.as_slice());
    }
}

impl StableHash for u64 {
    /// Big-endian bytes.
    open spec fn stable_bytes(&self) -> Seq<u8> {
        spec_be_bytes_64(*self)
    }

    fn update<H: StableHasher>(&self, h: &mut H)
        ensures
            final(h).absorbed() == old(h).absorbed() + self.stable_bytes(),
    {
        let n = *self;
        let buf: [u8; 8] = [
            ((n >> 56u64) & 0xff) as u8,
            ((n >> 48u64) & 0xff) as u8,
            ((n >> 40u64) & 0xff) as u8,
            ((n >> 32u64) & 0xff) as u8,
            ((n >> 24u64) & 0xff) as u8,
            ((n >> 16u64) & 0xff) as u8,
            ((n >> 8u64) & 0xff) as u8,
            (n & 0xff) as u8,
        ];
        proof {
            assert(buf@ =~= spec_be_bytes_64(n));
        }
        h.update(buf.as_slice());
    }
}

impl StableHash for usize {
    /// As a 64-bit word, big-endian.
    open spec fn stable_bytes(&self) -> Seq<u8> {
        spec_be_bytes_64(*self as u64)
    }

    fn update<H: StableHasher>(&self, h: &mut H)
        ensures
            final(h).absorbed() == old(h).absorbed() + self.stable_bytes(),
    {
        let n = *self as u64;
        n.update(h);
    }
}

impl StableHash for Vec<u8> {
    /// The length as a 64-bit word, then each byte.
    open spec fn stable_bytes(&self) -> Seq<u8> {
        spec_be_bytes_64(self@.len() as u64) + self@
    }

    fn update<H: StableHasher>(&self, h: &mut H)
        ensures
            final(h).absorbed() == old(h).absorbed() + self.stable_bytes(),
    {
        let n = self.len();
        n.update(h);
        h.update(self.as_slice());
        proof {
            assert(old(h).absorbed() + spec_be_bytes_64(self@.len() as u64) + self@ =~= old(
                h,
            ).absorbed() + (spec_be_bytes_64(self@.len() as u64) + self@));
        }
    }
}

impl StableHash for SupportedHash {
    /// A one-byte algorithm tag, then the digest bytes.
    open spec fn stable_bytes(&self) -> Seq<u8> {
        match self {
            SupportedHash::Blake3(hash) => seq![1u8] + hash@,
        }
    }

    fn update<H: StableHasher>(&self, h: &mut H)
        ensures
            final(h).absorbed() == old(h).absorbed() + self.stable_bytes(),
    {
        let tag: u8 = match self {
            SupportedHash::Blake3(_) => 1,
        };
        tag.update(h);
        match self {
            SupportedHash::Blake3(hash) => {
                h.update(hash.as_slice());
            },
        }
        proof {
            match self {
                SupportedHash::Blake3(hash) => {
                    assert(old(h).absorbed() + seq![1u8] + hash@ =~= old(h).absorbed() + (seq![1u8]
                        + hash@));
                },
            }
        }
    }
}

/// The stable bytes of the tail of a run of values beginning at position
/// `start`: each value prefixed by its position as a 64-bit word, the whole
/// run closed by a 64-bit all-ones marker.
pub open spec fn spec_iter_bytes_from<V: StableHash>(items: Seq<V>, start: int) -> Seq<u8>
    decreases items.len(),
{
    if items.len() == 0 {
        spec_be_bytes_64(0xffff_ffff_ffff_ffffu64)
    } else {
        spec_be_bytes_64(start as u64) + items.first().stable_bytes() + spec_iter_bytes_from(
            items.drop_first(),
            start + 1,
        )
    }
}

/// The stable bytes of a whole run of values.
pub open spec fn spec_iter_bytes<V: StableHash>(items: Seq<V>) -> Seq<u8> {
    spec_iter_bytes_from(items, 0)
}

/// Extra absorption helpers on any stable hasher.
pub trait StableHasherExt: StableHasher {
    /// Absorbs one hashable value.
    fn update_hash<V: StableHash>(&mut self, v: &V)
        ensures
            final(self).absorbed() == old(self).absorbed() + v.stable_bytes(),
    ;

    /// Absorbs a run of values, each prefixed by its position, closed by an
    /// all-ones marker — so that runs of different lengths or orders absorb
    /// different streams.
    fn update_iter<V: StableHash>(&mut self, items: &[V])
        ensures
            final(self).absorbed() == old(self).absorbed() + spec_iter_bytes(items@),
    ;
}

impl<H: StableHasher> StableHasherExt for H {
    fn update_hash<V: StableHash>(&mut self, v: &V)
        ensures
            final(self).absorbed() == old(self).absorbed() + v.stable_bytes(),
    {
        v.update(self);
    }

    fn update_iter<V: StableHash>(&mut self, items: &[V])
        ensures
            final(self).absorbed() == old(self).absorbed() + spec_iter_bytes(items@),
    {
        proof {
            assert(items@.skip(0) =~= items@);
        }
        let mut i: usize = 0;
        while i < items.len()
            invariant
                i <= items@.len(),
                self.absorbed() + spec_iter_bytes_from(items@.skip(i as int), i as int) == old(
                    self,
                ).absorbed() + spec_iter_bytes_from(items@, 0),
            decreases items@.len() - i,
        {
            let ghost before = self.absorbed();
            let ghost tail = items@.skip(i as int);
            let pos: u64 = i as u64;
            pos.update(self);
            items[i].update(self);
            proof {
                assert(tail.first() == items@[i as int]);
                assert(tail.drop_first() =~= items@.skip(i as int + 1));
                assert(before + spec_be_bytes_64(pos) + items@[i as int].stable_bytes() =~= before
                    + (spec_be_bytes_64(pos) + items@[i as int].stable_bytes()));
                assert(before + (spec_be_bytes_64(pos) + items@[i as int].stable_bytes())
                    + spec_iter_bytes_from(items@.skip(i as int + 1), i as int + 1) =~= before + ((
                spec_be_bytes_64(pos) + items@[i as int].stable_bytes()) + spec_iter_bytes_from(
                    items@.skip(i as int + 1),
                    i as int + 1,
                )));
            }
            i += 1;
        }
        proof {
            assert(items@.skip(items@.len() as int) =~= Seq::<V>::empty());
        }
        let closing: u64 = 0xffff_ffff_ffff_ffff;
        closing.update(self);
    }
}

/// Hashing a whole value in one step.
pub trait StableHashExt: StableHash + Sized {
    /// The digest of this value under the given hasher.
    fn hash<H: StableHasher>(&self, h: H) -> (r: H::Result)
        ensures
            H::result_matches(h.absorbed() + self.stable_bytes(), r),
    ;
}

impl<T: StableHash + Sized> StableHashExt for T {
    fn hash<H: StableHasher>(&self, h: H) -> (r: H::Result)
        ensures
            H::result_matches(h.absorbed() + self.stable_bytes(), r),
    {
        let mut h = h;
        self.update(&mut h);
        h.finalize()
    }
}

} // verus!
