//! Element types that may live in GPU buffers, together with their byte
//! encoding. The device layer moves data to and from backends as raw bytes;
//! an `Element` fixes how one value of the type is laid out as bytes, so the
//! typed convenience methods can be specified and verified against the
//! untyped primitives.

use vstd::prelude::*;

verus! {

/// A fixed-size element type with a byte encoding.
///
/// `spec_bytes` and `spec_decode` are exact inverses on whole values, which
/// is what makes a write-then-read of a buffer element lossless.
pub trait Element: Sized {
    /// Size of one element in bytes.
    spec fn spec_size() -> nat;

    /// The byte encoding of one element.
    spec fn spec_bytes(self) -> Seq<u8>;

    /// The element a byte encoding stands for.
    spec fn spec_decode(b: Seq<u8>) -> Self;

    /// Every encoding has exactly `spec_size` bytes.
    proof fn lemma_bytes_len(self)
        ensures
            self.spec_bytes().len() == Self::spec_size(),
    ;

    /// Decoding an encoding gives the element back.
    proof fn lemma_decode_encode(self)
        ensures
            Self::spec_decode(self.spec_bytes()) == self,
    ;

    /// Size of one element in bytes, as a runtime value.
    fn size() -> (r: usize)
        ensures
            r == Self::spec_size(),
    ;

    /// Append the byte encoding of `self` to `out`.
    fn append_bytes(&self, out: &mut Vec<u8>)
        requires
            old(out)@.len() + Self::spec_size() <= usize::MAX,
        ensures
            final(out)@ == old(out)@ + self.spec_bytes(),
    ;

    /// Read one element out of `bytes`, starting at byte `start`.
    fn decode(bytes: &[u8], start: usize) -> (r: Self)
        requires
            start + Self::spec_size() <= bytes@.len(),
        ensures
            r == Self::spec_decode(bytes@.subrange(start as int, start + Self::spec_size())),
    ;
}

impl Element for () {
    open spec fn spec_size() -> nat {
        0
    }

    open spec fn spec_bytes(self) -> Seq<u8> {
        Seq::empty()
    }

    open spec fn spec_decode(b: Seq<u8>) -> Self {
        ()
    }

    proof fn lemma_bytes_len(self) {
    }

    proof fn lemma_decode_encode(self) {
    }

    fn size() -> (r: usize) {
        0
    }

    fn append_bytes(&self, out: &mut Vec<u8>) {
        proof {
            assert(out@ =~= out@ + Seq::<u8>::empty());
        }
    }

    fn decode(bytes: &[u8], start: usize) -> (r: Self) {
        ()
    }
}

impl Element for u8 {
    open spec fn spec_size() -> nat {
        1
    }

    open spec fn spec_bytes(self) -> Seq<u8> {
        seq![self]
    }

    open spec fn spec_decode(b: Seq<u8>) -> Self {
        b[0]
    }

    proof fn lemma_bytes_len(self) {
    }

    proof fn lemma_decode_encode(self) {
    }

    fn size() -> (r: usize) {
        1
    }

    fn append_bytes(&self, out: &mut Vec<u8>) {
        out.push(*self);
    }

    fn decode(bytes: &[u8], start: usize) -> (r: Self) {
        bytes[start]
    }
}

impl Element for u16 {
    open spec fn spec_size() -> nat {
        2
    }

    open spec fn spec_bytes(self) -> Seq<u8> {
        seq![(self & 0xff) as u8, ((self >> 8) & 0xff) as u8]
    }

    open spec fn spec_decode(b: Seq<u8>) -> Self {
        (b[0] as u16) | ((b[1] as u16) << 8)
    }

    proof fn lemma_bytes_len(self) {
    }

    proof fn lemma_decode_encode(self) {
        let x = self;
        let b0 = (x & 0xff) as u8;
        let b1 = ((x >> 8) & 0xff) as u8;
        assert((b0 as u16) | ((b1 as u16) << 8) == x) by (bit_vector)
            requires
                b0 == (x & 0xff) as u8,
                b1 == ((x >> 8) & 0xff) as u8,
        ;
    }

    fn size() -> (r: usize) {
        2
    }

    fn append_bytes(&self, out: &mut Vec<u8>) {
        let x = *self;
        assert(x & 0xff <= 0xff) by (bit_vector);
        assert((x >> 8) & 0xff <= 0xff) by (bit_vector);
        out.push((x & 0xff) as u8);
        out.push(((x >> 8) & 0xff) as u8);
    }

    fn decode(bytes: &[u8], start: usize) -> (r: Self) {
        let b0 = bytes[start];
        let b1 = bytes[start + 1];
        (b0 as u16) | ((b1 as u16) << 8)
    }
}

impl Element for u32 {
    open spec fn spec_size() -> nat {
        4
    }

    open spec fn spec_bytes(self) -> Seq<u8> {
        seq![
            (self & 0xff) as u8,
            ((self >> 8) & 0xff) as u8,
            ((self >> 16) & 0xff) as u8,
            ((self >> 24) & 0xff) as u8,
        ]
    }

    open spec fn spec_decode(b: Seq<u8>) -> Self {
        (b[0] as u32) | ((b[1] as u32) << 8) | ((b[2] as u32) << 16) | ((b[3] as u32) << 24)
    }

    proof fn lemma_bytes_len(self) {
    }

    proof fn lemma_decode_encode(self) {
        let x = self;
        let b0 = (x & 0xff) as u8;
        let b1 = ((x >> 8) & 0xff) as u8;
        let b2 = ((x >> 16) & 0xff) as u8;
        let b3 = ((x >> 24) & 0xff) as u8;
        assert((b0 as u32) | ((b1 as u32) << 8) | ((b2 as u32) << 16) | ((b3 as u32) << 24) == x)
            by (bit_vector)
            requires
                b0 == (x & 0xff) as u8,
                b1 == ((x >> 8) & 0xff) as u8,
                b2 == ((x >> 16) & 0xff) as u8,
                b3 == ((x >> 24) & 0xff) as u8,
        ;
    }

    fn size() -> (r: usize) {
        4
    }

    fn append_bytes(&self, out: &mut Vec<u8>) {
        let x = *self;
        assert(x & 0xff <= 0xff) by (bit_vector);
        assert((x >> 8) & 0xff <= 0xff) by (bit_vector);
        assert((x >> 16) & 0xff <= 0xff) by (bit_vector);
        assert((x >> 24) & 0xff <= 0xff) by (bit_vector);
        out.push((x & 0xff) as u8);
        out.push(((x >> 8) & 0xff) as u8);
        out.push(((x >> 16) & 0xff) as u8);
        out.push(((x >> 24) & 0xff) as u8);
    }

    fn decode(bytes: &[u8], start: usize) -> (r: Self) {
        let b0 = bytes[start];
        let b1 = bytes[start + 1];
        let b2 = bytes[start + 2];
        let b3 = bytes[start + 3];
        (b0 as u32) | ((b1 as u32) << 8) | ((b2 as u32) << 16) | ((b3 as u32) << 24)
    }
}

/// The byte encoding of a whole sequence of elements, in order.
pub open spec fn bytes_of_seq<T: Element>(s: Seq<T>) -> Seq<u8>
    decreases s.len(),
{
    if s.len() == 0 {
        Seq::empty()
    } else {
        s[0].spec_bytes() + bytes_of_seq(s.drop_first())
    }
}

/// The first `n` elements encoded in a byte region.
pub open spec fn decode_prefix<T: Element>(b: Seq<u8>, n: nat) -> Seq<T> {
    Seq::new(n, |i: int| T::spec_decode(b.subrange(i * T::spec_size(), i * T::spec_size() + T::spec_size())))
}

/// Encoding `n` elements yields exactly `n * spec_size` bytes.
pub proof fn lemma_bytes_of_seq_len<T: Element>(s: Seq<T>)
    ensures
        bytes_of_seq::<T>(s).len() == s.len() * T::spec_size(),
    decreases s.len(),
{
    if s.len() == 0 {
    } else {
        s[0].lemma_bytes_len();
        lemma_bytes_of_seq_len::<T>(s.drop_first());
        assert(s.len() * T::spec_size() == T::spec_size() + (s.len() - 1) * T::spec_size())
            by (nonlinear_arith);
    }
}

/// Appending one element to a sequence appends its bytes to the encoding.
pub proof fn lemma_bytes_of_seq_push<T: Element>(s: Seq<T>, x: T)
    ensures
        bytes_of_seq::<T>(s.push(x)) == bytes_of_seq::<T>(s) + x.spec_bytes(),
    decreases s.len(),
{
    if s.len() == 0 {
        assert(s.push(x).drop_first() =~= Seq::<T>::empty());
        assert(s.push(x)[0] == x);
        assert(bytes_of_seq::<T>(s.push(x)) == x.spec_bytes() + bytes_of_seq::<T>(
            s.push(x).drop_first(),
        ));
        assert(x.spec_bytes() + Seq::<u8>::empty() =~= Seq::<u8>::empty() + x.spec_bytes());
    } else {
        lemma_bytes_of_seq_push::<T>(s.drop_first(), x);
        assert(s.push(x).drop_first() =~= s.drop_first().push(x));
        assert(s.push(x)[0] == s[0]);
        assert(bytes_of_seq::<T>(s.push(x)) == s[0].spec_bytes() + (bytes_of_seq::<T>(
            s.drop_first(),
        ) + x.spec_bytes()));
        assert(s[0].spec_bytes() + (bytes_of_seq::<T>(s.drop_first()) + x.spec_bytes()) =~= (
        s[0].spec_bytes() + bytes_of_seq::<T>(s.drop_first())) + x.spec_bytes());
    }
}

/// Inside the encoding of a sequence, element `i` occupies bytes
/// `i * spec_size .. (i + 1) * spec_size`.
pub proof fn lemma_bytes_of_seq_index<T: Element>(s: Seq<T>, i: int)
    requires
        0 <= i < s.len(),
    ensures
        bytes_of_seq::<T>(s).subrange(
            i * T::spec_size(),
            i * T::spec_size() + T::spec_size(),
        ) == s[i].spec_bytes(),
    decreases s.len(),
{
    let k = T::spec_size() as int;
    let b = bytes_of_seq::<T>(s);
    s[0].lemma_bytes_len();
    lemma_bytes_of_seq_len::<T>(s.drop_first());
    if i == 0 {
        assert(b.subrange(0, k) =~= s[0].spec_bytes());
    } else {
        lemma_bytes_of_seq_index::<T>(s.drop_first(), i - 1);
        assert((i - 1) * k == i * k - k) by (nonlinear_arith);
        assert(0 <= (i - 1) * k && (i - 1) * k + k <= bytes_of_seq::<T>(s.drop_first()).len())
            by (nonlinear_arith)
            requires
                0 <= i - 1 < s.drop_first().len(),
                bytes_of_seq::<T>(s.drop_first()).len() == s.drop_first().len() * k,
                k >= 0,
        ;
        assert(b.subrange(i * k, i * k + k) =~= bytes_of_seq::<T>(s.drop_first()).subrange(
            (i - 1) * k,
            (i - 1) * k + k,
        ));
    }
}

/// A byte region with `p.len()` bytes replaced, starting at `at`.
pub open spec fn replace_range(s: Seq<u8>, at: int, p: Seq<u8>) -> Seq<u8> {
    s.subrange(0, at) + p + s.subrange(at + p.len(), s.len() as int)
}

/// Pointwise reading of `replace_range`.
pub proof fn lemma_replace_range_index(s: Seq<u8>, at: int, p: Seq<u8>, q: int)
    requires
        0 <= at,
        at + p.len() <= s.len(),
        0 <= q < s.len(),
    ensures
        replace_range(s, at, p).len() == s.len(),
        at <= q < at + p.len() ==> replace_range(s, at, p)[q] == p[q - at],
        !(at <= q < at + p.len()) ==> replace_range(s, at, p)[q] == s[q],
{
}

/// Replacing the byte encoding of element `i` inside a byte region decodes
/// to the old element sequence with entry `i` replaced.
pub proof fn lemma_decode_prefix_replace<T: Element>(b: Seq<u8>, n: nat, i: nat, v: T)
    requires
        i < n,
        n * T::spec_size() <= b.len(),
    ensures
        decode_prefix::<T>(replace_range(b, (i * T::spec_size()) as int, v.spec_bytes()), n)
            == decode_prefix::<T>(b, n).update(i as int, v),
{
    let k = T::spec_size() as int;
    v.lemma_bytes_len();
    assert(0 <= i * k && i * k + k <= n * k) by (nonlinear_arith)
        requires
            0 <= i < n,
            k >= 0,
    ;
    let c = replace_range(b, i * k, v.spec_bytes());
    let lhs = decode_prefix::<T>(c, n);
    let rhs = decode_prefix::<T>(b, n).update(i as int, v);
    assert forall|q: int| 0 <= q < b.len() implies c.len() == b.len() && (i * k <= q < i * k + k
        ==> c[q] == v.spec_bytes()[q - i * k]) && (!(i * k <= q < i * k + k) ==> c[q] == b[q]) by {
        lemma_replace_range_index(b, i * k, v.spec_bytes(), q);
    }
    assert forall|j: int| 0 <= j < n implies lhs[j] == rhs[j] by {
        assert(0 <= j * k && j * k + k <= n * k) by (nonlinear_arith)
            requires
                0 <= j < n,
                k >= 0,
        ;
        if j == i {
            assert(c.subrange(j * k, j * k + k) =~= v.spec_bytes());
            v.lemma_decode_encode();
        } else {
            if j < i {
                assert(j * k + k <= i * k) by (nonlinear_arith)
                    requires
                        j < i,
                        k >= 0,
                ;
            } else {
                assert(i * k + k <= j * k) by (nonlinear_arith)
                    requires
                        i < j,
                        k >= 0,
                ;
            }
            assert(c.subrange(j * k, j * k + k) =~= b.subrange(j * k, j * k + k));
        }
    }
    assert(lhs =~= rhs);
}

/// Decoding the encoding of a sequence gives the sequence back.
pub proof fn lemma_decode_of_encode<T: Element>(s: Seq<T>)
    ensures
        decode_prefix::<T>(bytes_of_seq::<T>(s), s.len()) == s,
{
    let d = decode_prefix::<T>(bytes_of_seq::<T>(s), s.len());
    assert forall|i: int| 0 <= i < s.len() implies d[i] == s[i] by {
        lemma_bytes_of_seq_index::<T>(s, i);
        s[i].lemma_decode_encode();
    }
    assert(d =~= s);
}

} // verus!
