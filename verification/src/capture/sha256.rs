//! SHA-256 (FIPS 180-4), for signatures that are compared across processes.
use crate::number::{hex, hex_text};
use vstd::prelude::*;
use vstd::string::*;

verus! {

/// The round constants.
pub const K: [u32; 64] = [
    0x428a2f98, 0x71374491, 0xb5c0fbcf, 0xe9b5dba5, 0x3956c25b, 0x59f111f1, 0x923f82a4, 0xab1c5ed5,
    0xd807aa98, 0x12835b01, 0x243185be, 0x550c7dc3, 0x72be5d74, 0x80deb1fe, 0x9bdc06a7, 0xc19bf174,
    0xe49b69c1, 0xefbe4786, 0x0fc19dc6, 0x240ca1cc, 0x2de92c6f, 0x4a7484aa, 0x5cb0a9dc, 0x76f988da,
    0x983e5152, 0xa831c66d, 0xb00327c8, 0xbf597fc7, 0xc6e00bf3, 0xd5a79147, 0x06ca6351, 0x14292967,
    0x27b70a85, 0x2e1b2138, 0x4d2c6dfc, 0x53380d13, 0x650a7354, 0x766a0abb, 0x81c2c92e, 0x92722c85,
    0xa2bfe8a1, 0xa81a664b, 0xc24b8b70, 0xc76c51a3, 0xd192e819, 0xd6990624, 0xf40e3585, 0x106aa070,
    0x19a4c116, 0x1e376c08, 0x2748774c, 0x34b0bcb5, 0x391c0cb3, 0x4ed8aa4a, 0x5b9cca4f, 0x682e6ff3,
    0x748f82ee, 0x78a5636f, 0x84c87814, 0x8cc70208, 0x90befffa, 0xa4506ceb, 0xbef9a3f7, 0xc67178f2,
];

/// The eight words of the hash state.
#[derive(Clone, Copy)]
pub struct Words {
    pub a: u32,
    pub b: u32,
    pub c: u32,
    pub d: u32,
    pub e: u32,
    pub f: u32,
    pub g: u32,
    pub h: u32,
}

/// The state before the first block.
pub open spec fn initial() -> Words {
    Words {
        a: 0x6a09e667,
        b: 0xbb67ae85,
        c: 0x3c6ef372,
        d: 0xa54ff53a,
        e: 0x510e527f,
        f: 0x9b05688c,
        g: 0x1f83d9ab,
        h: 0x5be0cd19,
    }
}

/// `x` rotated right by `n` bits.
pub open spec fn rotr(x: u32, n: u32) -> u32 {
    (x >> n) | (x << ((32 - n) as u32))
}

pub open spec fn big0(x: u32) -> u32 {
    rotr(x, 2) ^ rotr(x, 13) ^ rotr(x, 22)
}

pub open spec fn big1(x: u32) -> u32 {
    rotr(x, 6) ^ rotr(x, 11) ^ rotr(x, 25)
}

pub open spec fn small0(x: u32) -> u32 {
    rotr(x, 7) ^ rotr(x, 18) ^ (x >> 3)
}

pub open spec fn small1(x: u32) -> u32 {
    rotr(x, 17) ^ rotr(x, 19) ^ (x >> 10)
}

/// The big-endian word at byte `i`.
pub open spec fn word(block: Seq<u8>, i: int) -> u32 {
    ((block[i] as u32) << 24) | ((block[i + 1] as u32) << 16) | ((block[i + 2] as u32) << 8) | (
    block[i + 3] as u32)
}

/// Word `t` of the message schedule.
pub open spec fn schedule(block: Seq<u8>, t: int) -> u32
    decreases t,
{
    if t < 16 {
        word(block, 4 * t)
    } else {
        schedule(block, t - 16).wrapping_add(small0(schedule(block, t - 15))).wrapping_add(
            schedule(block, t - 7),
        ).wrapping_add(small1(schedule(block, t - 2)))
    }
}

/// One round, with round constant `k` and schedule word `w`.
pub open spec fn round(v: Words, k: u32, w: u32) -> Words {
    let choice = (v.e & v.f) ^ ((!v.e) & v.g);
    let t1 = v.h.wrapping_add(big1(v.e)).wrapping_add(choice).wrapping_add(k).wrapping_add(w);
    let majority = (v.a & v.b) ^ (v.a & v.c) ^ (v.b & v.c);
    let t2 = big0(v.a).wrapping_add(majority);
    Words {
        a: t1.wrapping_add(t2),
        b: v.a,
        c: v.b,
        d: v.c,
        e: v.d.wrapping_add(t1),
        f: v.e,
        g: v.f,
        h: v.g,
    }
}

/// The first `t` rounds.
pub open spec fn rounds(v: Words, block: Seq<u8>, t: int) -> Words
    decreases t,
{
    if t <= 0 {
        v
    } else {
        round(rounds(v, block, t - 1), K@[t - 1], schedule(block, t - 1))
    }
}

pub open spec fn sum(v: Words, w: Words) -> Words {
    Words {
        a: v.a.wrapping_add(w.a),
        b: v.b.wrapping_add(w.b),
        c: v.c.wrapping_add(w.c),
        d: v.d.wrapping_add(w.d),
        e: v.e.wrapping_add(w.e),
        f: v.f.wrapping_add(w.f),
        g: v.g.wrapping_add(w.g),
        h: v.h.wrapping_add(w.h),
    }
}

/// The state after a block of 64 bytes.
pub open spec fn compressed(v: Words, block: Seq<u8>) -> Words {
    sum(v, rounds(v, block, 64))
}

/// The state after the whole blocks of `m`.
pub open spec fn absorbed(v: Words, m: Seq<u8>) -> Words
    decreases m.len(),
{
    if m.len() < 64 {
        v
    } else {
        absorbed(compressed(v, m.take(64)), m.skip(64))
    }
}

/// The eight bytes of `n`, the most significant first.
pub open spec fn length_bytes(n: u64) -> Seq<u8> {
    Seq::new(8, |i: int| ((n >> ((56 - 8 * i) as u64)) & 0xff) as u8)
}

/// `n` zero bytes.
pub open spec fn zeros(n: nat) -> Seq<u8> {
    Seq::new(n, |i: int| 0u8)
}

/// The number of bits of a message of `len` bytes, as far as it fits.
pub open spec fn bit_count(len: nat) -> u64 {
    ((len * 8) % 0x1_0000_0000_0000_0000) as u64
}

/// The message with its padding: a one bit, zeros up to the last eight bytes of a
/// block, and the number of bits.
pub open spec fn padded(m: Seq<u8>) -> Seq<u8> {
    m.push(0x80) + zeros(((119 - m.len() % 64) % 64) as nat) + length_bytes(bit_count(m.len()))
}

pub open spec fn digest(m: Seq<u8>) -> Words {
    absorbed(initial(), padded(m))
}

/// The digest in hexadecimal.
pub open spec fn digest_hex(m: Seq<u8>) -> Seq<char> {
    words_hex(digest(m))
}

/// The words in hexadecimal, one after the other.
pub open spec fn words_hex(d: Words) -> Seq<char> {
    hex(d.a as nat, 8) + hex(d.b as nat, 8) + hex(d.c as nat, 8) + hex(d.d as nat, 8) + hex(
        d.e as nat,
        8,
    ) + hex(d.f as nat, 8) + hex(d.g as nat, 8) + hex(d.h as nat, 8)
}

fn rotate(x: u32, n: u32) -> (r: u32)
    requires
        0 < n < 32,
    ensures
        r == rotr(x, n),
{
    (x >> n) | (x << (32 - n))
}

/// The state after a block of 64 bytes.
pub fn compress(state: Words, block: &Vec<u8>) -> (r: Words)
    requires
        block.len() == 64,
    ensures
        r == compressed(state, block@),
{
    let mut w: Vec<u32> = Vec::new();
    let mut i: usize = 0;
    while i < 16
        invariant
            i <= 16,
            block.len() == 64,
            w.len() == i,
            forall|j: int| 0 <= j < i ==> #[trigger] w@[j] == schedule(block@, j),
        decreases 16 - i,
    {
        let at: usize = 4 * i;
        w.push(
            ((block[at] as u32) << 24) | ((block[at + 1] as u32) << 16) | ((block[at + 2] as u32)
                << 8) | (block[at + 3] as u32),
        );
        i = i + 1;
    }
    while i < 64
        invariant
            16 <= i <= 64,
            w.len() == i,
            forall|j: int| 0 <= j < i ==> #[trigger] w@[j] == schedule(block@, j),
        decreases 64 - i,
    {
        let x = w[i - 15];
        let y = w[i - 2];
        let s0 = rotate(x, 7) ^ rotate(x, 18) ^ (x >> 3);
        let s1 = rotate(y, 17) ^ rotate(y, 19) ^ (y >> 10);
        let next = w[i - 16].wrapping_add(s0).wrapping_add(w[i - 7]).wrapping_add(s1);
        assert(next == schedule(block@, i as int));
        w.push(next);
        i = i + 1;
    }
    let mut v = state;
    let mut t: usize = 0;
    while t < 64
        invariant
            t <= 64,
            w.len() == 64,
            forall|j: int| 0 <= j < 64 ==> #[trigger] w@[j] == schedule(block@, j),
            v == rounds(state, block@, t as int),
        decreases 64 - t,
    {
        let s1 = rotate(v.e, 6) ^ rotate(v.e, 11) ^ rotate(v.e, 25);
        let choice = (v.e & v.f) ^ ((!v.e) & v.g);
        let t1 = v.h.wrapping_add(s1).wrapping_add(choice).wrapping_add(K[t]).wrapping_add(w[t]);
        let s0 = rotate(v.a, 2) ^ rotate(v.a, 13) ^ rotate(v.a, 22);
        let majority = (v.a & v.b) ^ (v.a & v.c) ^ (v.b & v.c);
        let t2 = s0.wrapping_add(majority);
        v = Words {
            a: t1.wrapping_add(t2),
            b: v.a,
            c: v.b,
            d: v.c,
            e: v.d.wrapping_add(t1),
            f: v.e,
            g: v.f,
            h: v.g,
        };
        t = t + 1;
    }
    Words {
        a: state.a.wrapping_add(v.a),
        b: state.b.wrapping_add(v.b),
        c: state.c.wrapping_add(v.c),
        d: state.d.wrapping_add(v.d),
        e: state.e.wrapping_add(v.e),
        f: state.f.wrapping_add(v.f),
        g: state.g.wrapping_add(v.g),
        h: state.h.wrapping_add(v.h),
    }
}

/// Whole blocks are absorbed before what follows them.
pub proof fn lemma_absorbed_concat(v: Words, a: Seq<u8>, b: Seq<u8>)
    requires
        a.len() % 64 == 0,
    ensures
        absorbed(v, a + b) == absorbed(absorbed(v, a), b),
    decreases a.len(),
{
    if a.len() == 0 {
        assert(a + b =~= b);
    } else {
        assert((a + b).take(64) =~= a.take(64));
        assert((a + b).skip(64) =~= a.skip(64) + b);
        lemma_absorbed_concat(compressed(v, a.take(64)), a.skip(64), b);
    }
}

/// A hash over bytes that come in pieces.
pub struct Sha256 {
    state: Words,
    buf: Vec<u8>,
    total: u64,
    fed: Ghost<Seq<u8>>,
}

impl View for Sha256 {
    type V = Seq<u8>;

    /// The bytes put in so far.
    closed spec fn view(&self) -> Seq<u8> {
        self.fed@
    }
}

impl Sha256 {
    /// The state covers the whole blocks, and the buffer holds the bytes after them.
    spec fn covers(&self) -> bool {
        let q = self.fed@.len() - self.buf@.len();
        &&& self.buf@.len() < 64
        &&& q >= 0
        &&& q % 64 == 0
        &&& self.buf@ == self.fed@.skip(q)
        &&& self.state == absorbed(initial(), self.fed@.take(q))
    }

    pub closed spec fn wf(&self) -> bool {
        &&& self.covers()
        &&& self.total == self.fed@.len() % 0x1_0000_0000_0000_0000
    }

    pub fn new() -> (r: Self)
        ensures
            r.wf(),
            r@ == Seq::<u8>::empty(),
    {
        let r = Sha256 {
            state: Words {
                a: 0x6a09e667,
                b: 0xbb67ae85,
                c: 0x3c6ef372,
                d: 0xa54ff53a,
                e: 0x510e527f,
                f: 0x9b05688c,
                g: 0x1f83d9ab,
                h: 0x5be0cd19,
            },
            buf: Vec::new(),
            total: 0,
            fed: Ghost(Seq::empty()),
        };
        assert(r.buf@ =~= r.fed@.skip(0));
        r
    }

    fn put(&mut self, b: u8)
        requires
            old(self).covers(),
        ensures
            final(self).covers(),
            final(self).fed@ == old(self).fed@.push(b),
            final(self).total == old(self).total,
    {
        let ghost was = self.fed@;
        let ghost q = was.len() - self.buf@.len();
        let ghost now = was.push(b);
        self.buf.push(b);
        self.fed = Ghost(now);
        assert(self.buf@ =~= now.skip(q));
        assert(now.take(q) =~= was.take(q));
        if self.buf.len() == 64 {
            proof {
                assert(now.take(q + 64) =~= now.take(q) + self.buf@);
                assert(now.take(q + 64) =~= now);
                lemma_absorbed_concat(initial(), now.take(q), self.buf@);
                reveal_with_fuel(absorbed, 2);
                assert(self.buf@.take(64) =~= self.buf@);
            }
            self.state = compress(self.state, &self.buf);
            self.buf.clear();
            assert(self.buf@ =~= now.skip(q + 64));
        }
    }

    pub fn update(&mut self, bytes: &[u8])
        requires
            old(self).wf(),
        ensures
            final(self).wf(),
            final(self)@ == old(self)@ + bytes@,
    {
        let ghost was = self.fed@;
        let mut i: usize = 0;
        assert(was + bytes@.take(0) =~= was);
        while i < bytes.len()
            invariant
                i <= bytes.len(),
                self.covers(),
                self.fed@ == was + bytes@.take(i as int),
                self.total == was.len() % 0x1_0000_0000_0000_0000,
            decreases bytes.len() - i,
        {
            self.put(bytes[i]);
            assert((was + bytes@.take(i as int)).push(bytes@[i as int]) =~= was + bytes@.take(
                i + 1,
            ));
            i = i + 1;
        }
        assert(bytes@.take(i as int) =~= bytes@);
        self.total = self.total.wrapping_add(bytes.len() as u64);
    }

    /// Puts in the padding for the bytes put in so far.
    fn pad(&mut self)
        requires
            old(self).wf(),
        ensures
            final(self).covers(),
            final(self).fed@ == padded(old(self).fed@),
    {
        let ghost m = self.fed@;
        let bits: u64 = self.total.wrapping_mul(8);
        proof {
            lemma_bits(self.total, m.len());
            lemma_tail(m.len() as int, self.buf@.len() as int);
        }
        let missing: u64 = (119 - self.buf.len() as u64) % 64;
        self.put(0x80);
        let ghost open = m.push(0x80);
        let mut n: u64 = 0;
        assert(open + zeros(0) =~= open);
        while n < missing
            invariant
                self.covers(),
                self.fed@ == open + zeros(n as nat),
                n <= missing,
            decreases missing - n,
        {
            self.put(0);
            assert((open + zeros(n as nat)).push(0u8) =~= open + zeros((n + 1) as nat));
            n = n + 1;
        }
        let ghost long = open + zeros(missing as nat);
        let mut i: u64 = 0;
        assert(long + length_bytes(bits).take(0) =~= long);
        while i < 8
            invariant
                i <= 8,
                self.covers(),
                self.fed@ == long + length_bytes(bits).take(i as int),
            decreases 8 - i,
        {
            let shift: u64 = 56 - 8 * i;
            let b: u8 = ((bits >> shift) & 0xff) as u8;
            self.put(b);
            assert((long + length_bytes(bits).take(i as int)).push(b) =~= long + length_bytes(
                bits,
            ).take(i + 1));
            i = i + 1;
        }
        assert(length_bytes(bits).take(8) =~= length_bytes(bits));
    }

    /// The digest of the bytes put in, in hexadecimal.
    pub fn finalize_hex(self) -> (r: String)
        requires
            self.wf(),
        ensures
            r@ == digest_hex(self@),
    {
        let mut h = self;
        let ghost m = h.fed@;
        h.pad();
        proof {
            lemma_padded_len(m);
            assert(h.buf@.len() == 0);
            assert(h.fed@.take(h.fed@.len() as int) =~= h.fed@);
        }
        words_text(h.state)
    }
}

proof fn lemma_bits(total: u64, len: nat)
    requires
        total == len % 0x1_0000_0000_0000_0000,
    ensures
        total.wrapping_mul(8) == bit_count(len),
{
    let m: int = 0x1_0000_0000_0000_0000;
    vstd::arithmetic::div_mod::lemma_mul_mod_noop_left(len as int, 8, m);
}

proof fn lemma_tail(len: int, tail: int)
    requires
        0 <= tail < 64,
        tail <= len,
        (len - tail) % 64 == 0,
    ensures
        len % 64 == tail,
{
}

/// The padding fills the last block.
proof fn lemma_padding_len(k: int)
    requires
        k >= 0,
    ensures
        (k + 1 + (119 - k % 64) % 64 + 8) % 64 == 0,
{
    let r = k % 64;
    let q = k / 64;
    assert(k == 64 * q + r);
    if r <= 55 {
        assert((119 - r) % 64 == 55 - r);
        assert(k + 1 + (119 - r) % 64 + 8 == 64 * (q + 1));
    } else {
        assert((119 - r) % 64 == 119 - r);
        assert(k + 1 + (119 - r) % 64 + 8 == 64 * (q + 2));
    }
}

/// The padded message is a number of whole blocks.
proof fn lemma_padded_len(m: Seq<u8>)
    ensures
        padded(m).len() % 64 == 0,
{
    lemma_padding_len(m.len() as int);
}

fn words_text(d: Words) -> (r: String)
    ensures
        r@ == words_hex(d),
{
    let mut r = hex_text(d.a as u64, 8);
    r.append(hex_text(d.b as u64, 8).as_str());
    r.append(hex_text(d.c as u64, 8).as_str());
    r.append(hex_text(d.d as u64, 8).as_str());
    r.append(hex_text(d.e as u64, 8).as_str());
    r.append(hex_text(d.f as u64, 8).as_str());
    r.append(hex_text(d.g as u64, 8).as_str());
    r.append(hex_text(d.h as u64, 8).as_str());
    r
}

}
