//! The little-endian, densely packed byte layout shared by every record.
//!
//! A type that travels in a datagram implements [`Wire`]: a fixed width, the
//! bytes that stand for a value, and a reader and a writer that are proved
//! against those bytes.
use vstd::prelude::*;

verus! {

/// A value with a fixed-width byte layout.
pub trait Wire: Sized + Copy {
    /// The bytes that stand for the value, in the order they are sent.
    spec fn wire(&self) -> Seq<u8>;

    /// How many bytes every value of the type takes.
    spec fn width() -> nat;

    /// Whether the value is the one a reader produces for its bytes. Types in
    /// which each byte pattern has a single value accept every value.
    spec fn canonical(&self) -> bool;

    /// Every value takes exactly `width()` bytes.
    proof fn lemma_wire_len(&self)
        ensures
            self.wire().len() == Self::width(),
    ;

    /// Two canonical values with the same bytes are the same value.
    proof fn lemma_wire_injective(&self, other: &Self)
        requires
            self.canonical(),
            other.canonical(),
            self.wire() == other.wire(),
        ensures
            *self == *other,
    ;

    /// The width as a machine integer.
    fn size() -> (n: usize)
        ensures
            n == Self::width(),
    ;

    /// Reads the value that starts at `at`.
    fn decode(bytes: &[u8], at: usize) -> (value: Self)
        requires
            at + Self::width() <= bytes.len(),
        ensures
            value.wire() == bytes@.subrange(at as int, at + Self::width()),
            value.canonical(),
    ;

    /// Appends the value's bytes to `out`.
    fn encode(&self, out: &mut Vec<u8>)
        ensures
            final(out)@ == old(out)@ + self.wire(),
    ;
}

/// The canonical value that `bytes` stand for. It is the value that
/// [`Wire::decode`] reads from them: see [`lemma_value_of`].
pub open spec fn value_of<T: Wire>(bytes: Seq<u8>) -> T {
    choose|value: T| value.canonical() && value.wire() == bytes
}

/// A canonical value is the one that its bytes stand for.
pub proof fn lemma_value_of<T: Wire>(value: T)
    requires
        value.canonical(),
    ensures
        value_of::<T>(value.wire()) == value,
{
    let chosen = value_of::<T>(value.wire());
    assert(chosen.canonical() && chosen.wire() == value.wire());
    chosen.lemma_wire_injective(&value);
}

/// Two adjacent ranges of a sequence make up the range that spans both.
pub broadcast proof fn lemma_subrange_join(s: Seq<u8>, a: int, m: int, c: int)
    requires
        0 <= a <= m <= c <= s.len(),
    ensures
        #[trigger] (s.subrange(a, m) + s.subrange(m, c)) == s.subrange(a, c),
{
    assert(s.subrange(a, m) + s.subrange(m, c) =~= s.subrange(a, c));
}

/// That two byte sequences are the same, named so that
/// [`lemma_concat_cancel`] can follow two layouts side by side.
pub open spec fn same_bytes(a: Seq<u8>, b: Seq<u8>) -> bool {
    a == b
}

/// Where two concatenations are equal and their first parts are as long as
/// each other, the parts are equal one by one.
pub broadcast proof fn lemma_concat_cancel(a: Seq<u8>, b: Seq<u8>, c: Seq<u8>, d: Seq<u8>)
    requires
        #[trigger] same_bytes(a + b, c + d),
        a.len() == c.len(),
    ensures
        same_bytes(a, c),
        b == d,
{
    assert(a =~= (a + b).subrange(0, a.len() as int));
    assert(c =~= (c + d).subrange(0, c.len() as int));
    assert(b =~= (a + b).subrange(a.len() as int, (a + b).len() as int));
    assert(d =~= (c + d).subrange(c.len() as int, (c + d).len() as int));
}

/// Concatenation may be regrouped.
pub broadcast proof fn lemma_concat_assoc(a: Seq<u8>, b: Seq<u8>, c: Seq<u8>)
    ensures
        #[trigger] ((a + b) + c) == a + (b + c),
{
    assert((a + b) + c =~= a + (b + c));
}

/// The byte that stands for a signed byte: its two's complement.
pub open spec fn i8_to_byte(x: i8) -> u8 {
    if x >= 0 {
        x as u8
    } else {
        (x as int + 256) as u8
    }
}

/// The unsigned number with the same two's complement bits.
pub open spec fn i16_to_bits(x: i16) -> u16 {
    if x >= 0 {
        x as u16
    } else {
        (x as int + 65536) as u16
    }
}

/// The two bytes of a 16-bit number, the less significant first.
pub closed spec fn u16_bytes(x: u16) -> Seq<u8> {
    seq![(x % 256) as u8, (x / 256) as u8]
}

/// The four bytes of a 32-bit number: those of its lower half, then those
/// of its upper half.
pub closed spec fn u32_bytes(x: u32) -> Seq<u8> {
    u16_bytes((x % 65536) as u16) + u16_bytes((x / 65536) as u16)
}

/// The eight bytes of a 64-bit number: those of its lower half, then those
/// of its upper half.
pub closed spec fn u64_bytes(x: u64) -> Seq<u8> {
    u32_bytes((x % 4294967296) as u32) + u32_bytes((x / 4294967296) as u32)
}

/// What `u16_bytes` stands for.
pub proof fn lemma_u16_bytes_parts(x: u16)
    ensures
        u16_bytes(x) == seq![(x % 256) as u8, (x / 256) as u8],
{
}

/// What `u32_bytes` stands for.
pub proof fn lemma_u32_bytes_halves(x: u32)
    ensures
        u32_bytes(x) == u16_bytes((x % 65536) as u16) + u16_bytes((x / 65536) as u16),
{
}

/// What `u64_bytes` stands for.
pub proof fn lemma_u64_bytes_halves(x: u64)
    ensures
        u64_bytes(x) == u32_bytes((x % 4294967296) as u32) + u32_bytes((x / 4294967296) as u32),
{
}

/// The number that two bytes stand for, the less significant first.
pub open spec fn u16_value(bytes: Seq<u8>) -> int {
    bytes[0] + 256 * bytes[1]
}

/// The number that four bytes stand for, the least significant first.
pub open spec fn u32_value(bytes: Seq<u8>) -> int {
    bytes[0] + 256 * bytes[1] + 65536 * bytes[2] + 16777216 * bytes[3]
}

/// The number that eight bytes stand for, the least significant first.
pub open spec fn u64_value(bytes: Seq<u8>) -> int {
    u32_value(bytes.subrange(0, 4)) + 4294967296 * u32_value(bytes.subrange(4, 8))
}

/// The bytes of a 16-bit number stand for that number.
pub proof fn lemma_u16_value(x: u16)
    ensures
        u16_bytes(x).len() == 2,
        u16_value(u16_bytes(x)) == x,
{
}

/// The bytes of a 32-bit number stand for that number.
pub proof fn lemma_u32_value(x: u32)
    ensures
        u32_bytes(x).len() == 4,
        u32_value(u32_bytes(x)) == x,
{
    let low = (x % 65536) as u16;
    let high = (x / 65536) as u16;
    lemma_u16_value(low);
    lemma_u16_value(high);
    let bytes = u32_bytes(x);
    assert(bytes[0] == u16_bytes(low)[0] && bytes[1] == u16_bytes(low)[1]);
    assert(bytes[2] == u16_bytes(high)[0] && bytes[3] == u16_bytes(high)[1]);
}

/// The bytes of a 64-bit number stand for that number.
pub proof fn lemma_u64_value(x: u64)
    ensures
        u64_bytes(x).len() == 8,
        u64_value(u64_bytes(x)) == x,
{
    let low = (x % 4294967296) as u32;
    let high = (x / 4294967296) as u32;
    lemma_u32_value(low);
    lemma_u32_value(high);
    let bytes = u64_bytes(x);
    assert(bytes.subrange(0, 4) =~= u32_bytes(low));
    assert(bytes.subrange(4, 8) =~= u32_bytes(high));
}

/// A 16-bit number takes two bytes.
pub broadcast proof fn lemma_u16_bytes_len(x: u16)
    ensures
        #[trigger] u16_bytes(x).len() == 2,
{
}

/// A 32-bit number takes four bytes.
pub broadcast proof fn lemma_u32_bytes_len(x: u32)
    ensures
        #[trigger] u32_bytes(x).len() == 4,
{
    lemma_u16_bytes_len((x % 65536) as u16);
    lemma_u16_bytes_len((x / 65536) as u16);
}

/// A 64-bit number takes eight bytes.
pub broadcast proof fn lemma_u64_bytes_len(x: u64)
    ensures
        #[trigger] u64_bytes(x).len() == 8,
{
    lemma_u32_bytes_len((x % 4294967296) as u32);
    lemma_u32_bytes_len((x / 4294967296) as u32);
}

/// How many bytes each integer takes.
pub broadcast group group_integer_widths {
    lemma_u16_bytes_len,
    lemma_u32_bytes_len,
    lemma_u64_bytes_len,
}

/// Two 16-bit numbers with the same bytes are the same number.
pub proof fn lemma_u16_bytes_injective(x: u16, y: u16)
    requires
        u16_bytes(x) == u16_bytes(y),
    ensures
        x == y,
{
    assert(u16_bytes(x)[0] == (x % 256) as u8);
    assert(u16_bytes(x)[1] == (x / 256) as u8);
    assert(u16_bytes(y)[0] == (y % 256) as u8);
    assert(u16_bytes(y)[1] == (y / 256) as u8);
}

/// Two 32-bit numbers with the same bytes are the same number.
pub proof fn lemma_u32_bytes_injective(x: u32, y: u32)
    requires
        u32_bytes(x) == u32_bytes(y),
    ensures
        x == y,
{
    broadcast use {lemma_concat_cancel, lemma_u16_bytes_len};

    assert(same_bytes(u32_bytes(x), u32_bytes(y)));
    lemma_u16_bytes_injective((x % 65536) as u16, (y % 65536) as u16);
    lemma_u16_bytes_injective((x / 65536) as u16, (y / 65536) as u16);
}

/// Two 64-bit numbers with the same bytes are the same number.
pub proof fn lemma_u64_bytes_injective(x: u64, y: u64)
    requires
        u64_bytes(x) == u64_bytes(y),
    ensures
        x == y,
{
    broadcast use {lemma_concat_cancel, lemma_u32_bytes_len};

    assert(same_bytes(u64_bytes(x), u64_bytes(y)));
    lemma_u32_bytes_injective((x % 4294967296) as u32, (y % 4294967296) as u32);
    lemma_u32_bytes_injective((x / 4294967296) as u32, (y / 4294967296) as u32);
}

impl Wire for u8 {
    open spec fn wire(&self) -> Seq<u8> {
        seq![*self]
    }

    open spec fn width() -> nat {
        1
    }

    open spec fn canonical(&self) -> bool {
        true
    }

    proof fn lemma_wire_len(&self) {
    }

    proof fn lemma_wire_injective(&self, other: &Self) {
        assert(self.wire()[0] == *self);
        assert(other.wire()[0] == *other);
    }

    fn size() -> (n: usize) {
        1
    }

    fn decode(bytes: &[u8], at: usize) -> (value: Self) {
        let value: u8 = bytes[at];
        assert(value.wire() =~= bytes@.subrange(at as int, at + 1));
        value
    }

    fn encode(&self, out: &mut Vec<u8>) {
        out.push(*self);
        assert(out@ =~= old(out)@ + self.wire());
    }
}

impl Wire for i8 {
    open spec fn wire(&self) -> Seq<u8> {
        seq![i8_to_byte(*self)]
    }

    open spec fn width() -> nat {
        1
    }

    open spec fn canonical(&self) -> bool {
        true
    }

    proof fn lemma_wire_len(&self) {
    }

    proof fn lemma_wire_injective(&self, other: &Self) {
        assert(self.wire()[0] == i8_to_byte(*self));
        assert(other.wire()[0] == i8_to_byte(*other));
    }

    fn size() -> (n: usize) {
        1
    }

    fn decode(bytes: &[u8], at: usize) -> (value: Self) {
        let byte: u8 = bytes[at];
        let value: i8 = if byte < 128 {
            byte as i8
        } else {
            (byte as i16 - 256) as i8
        };
        assert(value.wire() =~= bytes@.subrange(at as int, at + 1));
        value
    }

    fn encode(&self, out: &mut Vec<u8>) {
        let byte: u8 = if *self >= 0 {
            *self as u8
        } else {
            (*self as i16 + 256) as u8
        };
        out.push(byte);
        assert(out@ =~= old(out)@ + self.wire());
    }
}

impl Wire for u16 {
    open spec fn wire(&self) -> Seq<u8> {
        u16_bytes(*self)
    }

    open spec fn width() -> nat {
        2
    }

    open spec fn canonical(&self) -> bool {
        true
    }

    proof fn lemma_wire_len(&self) {
        lemma_u16_bytes_len(*self);
    }

    proof fn lemma_wire_injective(&self, other: &Self) {
        lemma_u16_bytes_injective(*self, *other);
    }

    fn size() -> (n: usize) {
        2
    }

    fn decode(bytes: &[u8], at: usize) -> (value: Self) {
        assert(Self::width() == 2);
        let b0: u16 = bytes[at] as u16;
        let b1: u16 = bytes[at + 1] as u16;
        let value: u16 = b0 + 256 * b1;
        proof {
            lemma_u16_bytes_parts(value);
            assert(value % 256 == b0 && value / 256 == b1) by (nonlinear_arith)
                requires
                    value == b0 + 256 * b1,
                    0 <= b0 < 256,
            ;
            assert(value.wire() =~= bytes@.subrange(at as int, at + 2));
            assert(value.canonical());
        }
        value
    }

    fn encode(&self, out: &mut Vec<u8>) {
        out.push((*self % 256) as u8);
        out.push((*self / 256) as u8);
        proof {
            lemma_u16_bytes_parts(*self);
            assert(out@ =~= old(out)@ + self.wire());
        }
    }
}

impl Wire for i16 {
    open spec fn wire(&self) -> Seq<u8> {
        u16_bytes(i16_to_bits(*self))
    }

    open spec fn width() -> nat {
        2
    }

    open spec fn canonical(&self) -> bool {
        true
    }

    proof fn lemma_wire_len(&self) {
        lemma_u16_bytes_len(i16_to_bits(*self));
    }

    proof fn lemma_wire_injective(&self, other: &Self) {
        lemma_u16_bytes_injective(i16_to_bits(*self), i16_to_bits(*other));
    }

    fn size() -> (n: usize) {
        2
    }

    fn decode(bytes: &[u8], at: usize) -> (value: Self) {
        let bits: u16 = u16::decode(bytes, at);
        if bits < 32768 {
            bits as i16
        } else {
            (bits as i32 - 65536) as i16
        }
    }

    fn encode(&self, out: &mut Vec<u8>) {
        let bits: u16 = if *self >= 0 {
            *self as u16
        } else {
            (*self as i32 + 65536) as u16
        };
        bits.encode(out);
    }
}

impl Wire for u32 {
    open spec fn wire(&self) -> Seq<u8> {
        u32_bytes(*self)
    }

    open spec fn width() -> nat {
        4
    }

    open spec fn canonical(&self) -> bool {
        true
    }

    proof fn lemma_wire_len(&self) {
        lemma_u32_bytes_len(*self);
    }

    proof fn lemma_wire_injective(&self, other: &Self) {
        lemma_u32_bytes_injective(*self, *other);
    }

    fn size() -> (n: usize) {
        4
    }

    fn decode(bytes: &[u8], at: usize) -> (value: Self) {
        let low: u16 = u16::decode(bytes, at);
        let high: u16 = u16::decode(bytes, at + 2);
        let value: u32 = low as u32 + 65536 * (high as u32);
        proof {
            lemma_u32_bytes_halves(value);
            assert(value % 65536 == low && value / 65536 == high) by (nonlinear_arith)
                requires
                    value == low + 65536 * high,
                    0 <= low < 65536,
            ;
            lemma_subrange_join(bytes@, at as int, at + 2, at + 4);
        }
        value
    }

    fn encode(&self, out: &mut Vec<u8>) {
        let low: u16 = (*self % 65536) as u16;
        let high: u16 = (*self / 65536) as u16;
        low.encode(out);
        high.encode(out);
        proof {
            lemma_u32_bytes_halves(*self);
            lemma_concat_assoc(old(out)@, low.wire(), high.wire());
        }
    }
}

impl Wire for u64 {
    open spec fn wire(&self) -> Seq<u8> {
        u64_bytes(*self)
    }

    open spec fn width() -> nat {
        8
    }

    open spec fn canonical(&self) -> bool {
        true
    }

    proof fn lemma_wire_len(&self) {
        lemma_u64_bytes_len(*self);
    }

    proof fn lemma_wire_injective(&self, other: &Self) {
        lemma_u64_bytes_injective(*self, *other);
    }

    fn size() -> (n: usize) {
        8
    }

    fn decode(bytes: &[u8], at: usize) -> (value: Self) {
        assert(Self::width() == 8);
        let low: u32 = u32::decode(bytes, at);
        let high: u32 = u32::decode(bytes, at + 4);
        let value: u64 = low as u64 + 4294967296 * (high as u64);
        proof {
            lemma_u64_bytes_halves(value);
            assert(value % 4294967296 == low && value / 4294967296 == high) by (nonlinear_arith)
                requires
                    value == low + 4294967296 * high,
                    0 <= low < 4294967296,
            ;
            lemma_subrange_join(bytes@, at as int, at + 4, at + 8);
            assert(value.wire() == bytes@.subrange(at as int, at + 8));
            assert(value.canonical());
        }
        value
    }

    fn encode(&self, out: &mut Vec<u8>) {
        let low: u32 = (*self % 4294967296) as u32;
        let high: u32 = (*self / 4294967296) as u32;
        low.encode(out);
        high.encode(out);
        proof {
            lemma_u64_bytes_halves(*self);
            lemma_concat_assoc(old(out)@, low.wire(), high.wire());
        }
    }
}

/// A single-precision number, kept as the bits that carry it. The library
/// never computes with it: it hands the bits on.
#[derive(Clone, Copy, Debug, PartialEq, Eq, Structural)]
pub struct Float32 {
    pub bits: u32,
}

impl Wire for Float32 {
    open spec fn wire(&self) -> Seq<u8> {
        u32_bytes(self.bits)
    }

    open spec fn width() -> nat {
        4
    }

    open spec fn canonical(&self) -> bool {
        true
    }

    proof fn lemma_wire_len(&self) {
        lemma_u32_bytes_len(self.bits);
    }

    proof fn lemma_wire_injective(&self, other: &Self) {
        lemma_u32_bytes_injective(self.bits, other.bits);
    }

    fn size() -> (n: usize) {
        4
    }

    fn decode(bytes: &[u8], at: usize) -> (value: Self) {
        Float32 { bits: u32::decode(bytes, at) }
    }

    fn encode(&self, out: &mut Vec<u8>) {
        self.bits.encode(out);
    }
}

/// A double-precision number, kept as the bits that carry it.
#[derive(Clone, Copy, Debug, PartialEq, Eq, Structural)]
pub struct Float64 {
    pub bits: u64,
}

impl Wire for Float64 {
    open spec fn wire(&self) -> Seq<u8> {
        u64_bytes(self.bits)
    }

    open spec fn width() -> nat {
        8
    }

    open spec fn canonical(&self) -> bool {
        true
    }

    proof fn lemma_wire_len(&self) {
        lemma_u64_bytes_len(self.bits);
    }

    proof fn lemma_wire_injective(&self, other: &Self) {
        lemma_u64_bytes_injective(self.bits, other.bits);
    }

    fn size() -> (n: usize) {
        8
    }

    fn decode(bytes: &[u8], at: usize) -> (value: Self) {
        Float64 { bits: u64::decode(bytes, at) }
    }

    fn encode(&self, out: &mut Vec<u8>) {
        self.bits.encode(out);
    }
}

/// The bytes of a run of values, one after another.
pub open spec fn wire_all<T: Wire>(items: Seq<T>) -> Seq<u8>
    decreases items.len(),
{
    if items.len() == 0 {
        Seq::empty()
    } else {
        wire_all(items.drop_last()) + items.last().wire()
    }
}

/// Whether every value of a run is canonical.
pub open spec fn all_canonical<T: Wire>(items: Seq<T>) -> bool {
    forall|i: int| 0 <= i < items.len() ==> (#[trigger] items[i]).canonical()
}

/// A run of `n` values takes `n` times the width of one.
pub proof fn lemma_wire_all_len<T: Wire>(items: Seq<T>)
    ensures
        wire_all(items).len() == items.len() * T::width(),
    decreases items.len(),
{
    if items.len() > 0 {
        lemma_wire_all_len(items.drop_last());
        items.last().lemma_wire_len();
        assert(items.len() * T::width() == items.drop_last().len() * T::width() + T::width())
            by (nonlinear_arith)
            requires
                items.drop_last().len() == items.len() - 1,
        ;
    }
}

/// An array of `N` values takes `N` times the width of one.
pub proof fn lemma_wire_array_len<T: Wire, const N: usize>(items: &[T; N])
    ensures
        wire_all(items@).len() == N * T::width(),
{
    lemma_wire_all_len(items@);
}

/// Two arrays of canonical values with the same bytes are the same array.
pub proof fn lemma_wire_array_injective<T: Wire, const N: usize>(a: &[T; N], b: &[T; N])
    requires
        all_canonical(a@),
        all_canonical(b@),
        wire_all(a@) == wire_all(b@),
    ensures
        *a == *b,
{
    lemma_wire_all_injective(a@, b@);
    assert(*a =~= *b);
}

/// Two runs of as many canonical values with the same bytes are the same run.
pub proof fn lemma_wire_all_injective<T: Wire>(a: Seq<T>, b: Seq<T>)
    requires
        a.len() == b.len(),
        all_canonical(a),
        all_canonical(b),
        wire_all(a) == wire_all(b),
    ensures
        a == b,
    decreases a.len(),
{
    if a.len() > 0 {
        let front_a = a.drop_last();
        let front_b = b.drop_last();
        lemma_wire_all_len(front_a);
        lemma_wire_all_len(front_b);
        a.last().lemma_wire_len();
        b.last().lemma_wire_len();
        let cut = wire_all(front_a).len() as int;
        let end = wire_all(a).len() as int;
        assert(wire_all(front_a) =~= wire_all(a).subrange(0, cut));
        assert(wire_all(front_b) =~= wire_all(b).subrange(0, cut));
        assert(a.last().wire() =~= wire_all(a).subrange(cut, end));
        assert(b.last().wire() =~= wire_all(b).subrange(cut, end));
        assert(a.last().canonical());
        assert(b.last().canonical());
        assert forall|i: int| 0 <= i < front_a.len() implies (
        #[trigger] front_a[i]).canonical() by {
            assert(front_a[i] == a[i]);
        }
        assert forall|i: int| 0 <= i < front_b.len() implies (
        #[trigger] front_b[i]).canonical() by {
            assert(front_b[i] == b[i]);
        }
        lemma_wire_all_injective(front_a, front_b);
        a.last().lemma_wire_injective(&b.last());
        assert(a =~= front_a.push(a.last()));
        assert(b =~= front_b.push(b.last()));
    } else {
        assert(a =~= b);
    }
}

/// Reads `N` values that follow one another from `at` on. The array is
/// started from its first value, so there has to be one: `N` is at least 1.
pub fn decode_array<T: Wire, const N: usize>(bytes: &[u8], at: usize) -> (values: [T; N])
    requires
        N >= 1,
        at + N * T::width() <= bytes.len(),
    ensures
        wire_all(values@) == bytes@.subrange(at as int, at + N * T::width()),
        all_canonical(values@),
{
    let width: usize = T::size();
    proof {
        assert(1 * T::width() <= N * T::width()) by (nonlinear_arith)
            requires
                N >= 1,
        ;
    }
    let first: T = T::decode(bytes, at);
    let mut values: [T; N] = [first;N];
    let mut count: usize = 1;
    let mut next: usize = at + width;
    proof {
        let prefix = values@.take(1);
        assert(prefix.drop_last() =~= Seq::<T>::empty());
        assert(prefix.last() == first);
        assert(wire_all(prefix.drop_last()) =~= Seq::<u8>::empty());
        assert(wire_all(prefix) =~= first.wire());
    }
    while count < N
        invariant
            1 <= count <= N,
            width == T::width(),
            next == at + count * width,
            at + N * width <= bytes.len(),
            wire_all(values@.take(count as int)) == bytes@.subrange(at as int, next as int),
            all_canonical(values@.take(count as int)),
        decreases N - count,
    {
        proof {
            assert((count + 1) * width <= N * width) by (nonlinear_arith)
                requires
                    count < N,
            ;
            assert((count + 1) * width == count * width + width) by (nonlinear_arith);
        }
        let value: T = T::decode(bytes, next);
        let ghost before = values@;
        values[count] = value;
        proof {
            let prefix = values@.take(count as int + 1);
            assert(prefix.drop_last() =~= before.take(count as int));
            assert(prefix.last() == value);
            lemma_subrange_join(bytes@, at as int, next as int, next + width);
            assert forall|i: int| 0 <= i < prefix.len() implies (
            #[trigger] prefix[i]).canonical() by {
                if i < count {
                    assert(prefix[i] == before.take(count as int)[i]);
                }
            }
        }
        count += 1;
        next += width;
    }
    assert(values@.take(N as int) =~= values@);
    values
}

/// Appends the bytes of every value of `items`, in order.
pub fn encode_all<T: Wire>(items: &[T], out: &mut Vec<u8>)
    ensures
        final(out)@ == old(out)@ + wire_all(items@),
{
    let mut count: usize = 0;
    while count < items.len()
        invariant
            count <= items.len(),
            out@ == old(out)@ + wire_all(items@.take(count as int)),
        decreases items.len() - count,
    {
        items[count].encode(out);
        proof {
            let prefix = items@.take(count as int + 1);
            assert(prefix.drop_last() =~= items@.take(count as int));
            assert(prefix.last() == items@[count as int]);
            lemma_concat_assoc(
                old(out)@,
                wire_all(items@.take(count as int)),
                items@[count as int].wire(),
            );
        }
        count += 1;
    }
    assert(items@.take(items.len() as int) =~= items@);
}

} // verus!
