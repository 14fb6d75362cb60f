//! The random payloads of the adb benchmark and their SHA-256 digests.
//!
//! Each payload is a stream of xorshift64 words written out little-endian; the
//! digest of what was generated is recorded so that a transfer can be checked
//! against it.
use vstd::prelude::*;
use vstd::slice::slice_subrange;
use sha2::Digest;

verus! {

// ---------------------------------------------------------------- SHA-256

/// A SHA-256 computation (`sha2::Sha256`) over the bytes fed to it so far.
///
/// `sha2::Sha256` is an alias of a generic wrapper whose parameters are typenum
/// types bounded by outside traits, which cannot be declared as an outside type;
/// the hasher is therefore held opaquely here, and what it has been fed is named by
/// `sha256_fed`.
#[verifier::external_body]
pub struct Sha256Stream {
    inner: sha2::Sha256,
}

/// The bytes fed to a SHA-256 computation so far.
pub uninterp spec fn sha256_fed(h: Sha256Stream) -> Seq<u8>;

/// The SHA-256 digest of a byte string.
pub uninterp spec fn sha256(data: Seq<u8>) -> Seq<u8>;

impl Sha256Stream {
    /// Starts a computation with nothing fed (`Sha256::new`).
    #[verifier::external_body]
    fn start() -> (h: Sha256Stream)
        ensures sha256_fed(h) == Seq::<u8>::empty(),
    {
        Sha256Stream { inner: sha2::Sha256::new() }
    }

    /// Feeds `data` (`Digest::update`).
    #[verifier::external_body]
    fn feed(&mut self, data: &[u8])
        ensures sha256_fed(*final(self)) == sha256_fed(*old(self)) + data@,
    {
        self.inner.update(data);
    }

    /// The digest of everything fed (`Digest::finalize`): 32 bytes.
    #[verifier::external_body]
    fn digest(self) -> (d: Vec<u8>)
        ensures
            d@ == sha256(sha256_fed(self)),
            d@.len() == 32,
    {
        self.inner.finalize().to_vec()
    }
}

/// The SHA-256 digest of a file's content, fed piece by piece as it is read.
pub struct ContentDigest {
    stream: Sha256Stream,
}

impl ContentDigest {
    /// The content fed so far.
    pub closed spec fn fed(&self) -> Seq<u8> {
        sha256_fed(self.stream)
    }

    pub fn new() -> (d: ContentDigest)
        ensures d.fed() == Seq::<u8>::empty(),
    {
        ContentDigest { stream: Sha256Stream::start() }
    }

    /// Feeds the next piece of content.
    pub fn update(&mut self, data: &[u8])
        ensures final(self).fed() == old(self).fed() + data@,
    {
        self.stream.feed(data);
    }

    /// The digest of all the content fed.
    pub fn finish(self) -> (d: Vec<u8>)
        ensures
            d@ == sha256(self.fed()),
            d@.len() == 32,
    {
        self.stream.digest()
    }
}

// ---------------------------------------------------------------- payloads

/// Bytes generated per chunk.
pub const PAYLOAD_CHUNK: usize = 65536;

/// One xorshift64 step (shifts 13, 7, 17).
pub open spec fn xorshift64(x: u64) -> u64 {
    let a = x ^ (x << 13u64);
    let b = a ^ (a >> 7u64);
    b ^ (b << 17u64)
}

/// The generator state after `k` steps from `seed`.
pub open spec fn xorshift_state(seed: u64, k: nat) -> u64
    decreases k,
{
    if k == 0 { seed } else { xorshift64(xorshift_state(seed, (k - 1) as nat)) }
}

/// Byte `k` (0 = least significant) of a word.
pub open spec fn word_byte(w: u64, k: nat) -> u8 {
    (w >> (8 * k) as u64) as u8
}

/// Byte `i` of the payload of `seed`: byte `i % 8` of word `i / 8`, the words being
/// the successive xorshift64 states after `seed`.
pub open spec fn payload_byte(seed: u64, i: nat) -> u8 {
    word_byte(xorshift_state(seed, i / 8 + 1), i % 8)
}

/// The first `n` bytes of the payload of `seed`.
pub open spec fn payload(seed: u64, n: nat) -> Seq<u8> {
    Seq::new(n, |i: int| payload_byte(seed, i as nat))
}

/// The seed of a payload: the clock reading mixed with the file's path length and
/// size; never 0, which xorshift64 would keep at 0.
pub open spec fn payload_seed_of(nanos: u64, path_len: u64, size: u64) -> u64 {
    let seed_b = path_len ^ size ^ 0x9E37_79B9_7F4A_7C15u64;
    let s = nanos ^ seed_b.wrapping_mul(0x100000001B3u64);
    if s == 0 { 1 } else { s }
}

/// Seeds a payload (see `payload_seed_of`).
pub fn payload_seed(nanos: u64, path_len: u64, size: u64) -> (s: u64)
    ensures s == payload_seed_of(nanos, path_len, size),
{
    let seed_b = path_len ^ size ^ 0x9E37_79B9_7F4A_7C15u64;
    let s = nanos ^ seed_b.wrapping_mul(0x100000001B3u64);
    if s == 0 { 1 } else { s }
}

fn xorshift_step(x: u64) -> (y: u64)
    ensures y == xorshift64(x),
{
    let mut x = x;
    x = x ^ (x << 13u64);
    x = x ^ (x >> 7u64);
    x = x ^ (x << 17u64);
    x
}

/// Generates a payload chunk by chunk while computing its SHA-256 digest.
pub struct PayloadGenerator {
    seed: u64,
    size: u64,
    produced: u64,
    state: u64,
    digest: ContentDigest,
}

impl PayloadGenerator {
    pub closed spec fn seed(&self) -> u64 { self.seed }

    pub closed spec fn size(&self) -> u64 { self.size }

    /// How many bytes have been generated so far.
    pub closed spec fn produced(&self) -> u64 { self.produced }

    pub closed spec fn wf(&self) -> bool {
        &&& self.produced <= self.size
        &&& (self.produced % 8 == 0 || self.produced == self.size)
        &&& self.produced % 8 == 0 ==> self.state == xorshift_state(self.seed, (self.produced / 8) as nat)
        &&& self.digest.fed() == payload(self.seed, self.produced as nat)
    }

    pub fn new(seed: u64, size: u64) -> (g: PayloadGenerator)
        ensures
            g.wf(),
            g.seed() == seed,
            g.size() == size,
            g.produced() == 0,
    {
        let g = PayloadGenerator { seed, size, produced: 0, state: seed, digest: ContentDigest::new() };
        assert(payload(seed, 0) =~= Seq::<u8>::empty());
        g
    }

    /// Fills `buf` with the next chunk of the payload (all that remains, up to
    /// `PAYLOAD_CHUNK` bytes) and returns its length.
    pub fn next_chunk(&mut self, buf: &mut Vec<u8>) -> (n: usize)
        requires
            old(self).wf(),
            old(buf)@.len() == PAYLOAD_CHUNK,
        ensures
            final(self).wf(),
            final(self).seed() == old(self).seed(),
            final(self).size() == old(self).size(),
            n as int == if old(self).size() - old(self).produced() < PAYLOAD_CHUNK {
                old(self).size() - old(self).produced()
            } else {
                PAYLOAD_CHUNK as int
            },
            final(self).produced() == old(self).produced() + n,
            final(buf)@.len() == PAYLOAD_CHUNK,
            final(buf)@.take(n as int)
                == payload(old(self).seed(), final(self).produced() as nat).skip(old(self).produced() as int),
    {
        let remaining = self.size - self.produced;
        let n: usize = if remaining < PAYLOAD_CHUNK as u64 { remaining as usize } else { PAYLOAD_CHUNK };
        let ghost p = self.produced as int;
        let ghost seed = self.seed;
        let mut x = self.state;
        let mut j: usize = 0;
        if n > 0 {
            assert(p % 8 == 0);
        }
        while j < n
            invariant
                n <= PAYLOAD_CHUNK,
                buf@.len() == PAYLOAD_CHUNK,
                0 <= p,
                j <= n,
                n > 0 ==> p % 8 == 0,
                n > 0 ==> self.state == xorshift_state(seed, (p / 8) as nat),
                j == 0 ==> x == self.state,
                j > 0 ==> x == xorshift_state(seed, ((p + j - 1) / 8 + 1) as nat),
                forall|k: int| 0 <= k < j ==> buf@[k] == #[trigger] payload_byte(seed, (p + k) as nat),
            decreases n - j,
        {
            let ghost w: nat = ((p + j) / 8) as nat;
            if j % 8 == 0 {
                proof {
                    if j > 0 {
                        assert((p + j - 1) / 8 + 1 == (p + j) / 8);
                        assert(x == xorshift_state(seed, w));
                    } else {
                        assert(w == p / 8);
                        assert(x == xorshift_state(seed, w));
                    }
                }
                x = xorshift_step(x);
                assert(xorshift_state(seed, w + 1) == xorshift64(xorshift_state(seed, w)));
            } else {
                assert((p + j - 1) / 8 == (p + j) / 8);
            }
            assert(x == xorshift_state(seed, w + 1));
            let k8: u64 = 8 * ((j % 8) as u64);
            assert((p + j) % 8 == j % 8);
            assert(((p + j) as nat) / 8 + 1 == w + 1);
            assert((x >> k8) as u8 == payload_byte(seed, (p + j) as nat));
            let ghost old_buf = buf@;
            buf.set(j, (x >> k8) as u8);
            assert forall|k: int| 0 <= k < j + 1 implies buf@[k] == #[trigger] payload_byte(seed, (p + k) as nat) by {
                if k < j {
                    assert(buf@[k] == old_buf[k]);
                }
            }
            j = j + 1;
        }
        let ghost old_fed = self.digest.fed();
        let chunk = slice_subrange(buf.as_slice(), 0, n);
        self.digest.update(chunk);
        let ghost new_produced = self.produced + n;
        assert forall|i: int| p <= i < p + n implies buf@.take(n as int)[i - p] == #[trigger] payload_byte(seed, i as nat) by {
            let k = i - p;
            assert(buf@[k] == payload_byte(seed, (p + k) as nat));
        }
        assert(payload(seed, new_produced as nat) =~= payload(seed, p as nat) + buf@.take(n as int));
        assert(buf@.take(n as int) =~= payload(seed, new_produced as nat).skip(p));
        self.produced = self.produced + n as u64;
        if n > 0 {
            self.state = x;
            proof {
                if self.produced % 8 == 0 {
                    assert((p + n - 1) / 8 + 1 == (self.produced / 8));
                }
            }
        }
        n
    }

    /// The SHA-256 digest of the whole payload, once every byte is generated.
    pub fn finish(self) -> (d: Vec<u8>)
        requires
            self.wf(),
            self.produced() == self.size(),
        ensures
            d@ == sha256(payload(self.seed(), self.size() as nat)),
            d@.len() == 32,
    {
        self.digest.finish()
    }
}

} // verus!
