//! Unsigned integers of a fixed width between 1 and 16 bits.
//!
//! An [`NBitNumber<N>`] always holds a value below `2^N`: every constructor and
//! every operation reduces its result modulo `2^N`, which is how the registers
//! and address counters of a small microcontroller wrap around.

use core::cmp::Ordering;
use core::ops::Not;
use vstd::prelude::*;
use vstd::std_specs::cmp::{PartialEqSpecImpl, PartialOrdSpecImpl};

verus! {

/// The number of values that `n` bits can hold (`2^n`), for `n` from 0 to 16.
pub open spec fn modulus(n: int) -> int {
    if n <= 0 {
        1
    } else if n == 1 {
        2
    } else if n == 2 {
        4
    } else if n == 3 {
        8
    } else if n == 4 {
        16
    } else if n == 5 {
        32
    } else if n == 6 {
        64
    } else if n == 7 {
        128
    } else if n == 8 {
        256
    } else if n == 9 {
        512
    } else if n == 10 {
        1024
    } else if n == 11 {
        2048
    } else if n == 12 {
        4096
    } else if n == 13 {
        8192
    } else if n == 14 {
        16384
    } else if n == 15 {
        32768
    } else {
        65536
    }
}

/// The low `n` bits of `v` (`v mod 2^n`), for `n` from 0 to 16.
pub open spec fn truncate(v: int, n: int) -> int {
    if n <= 0 {
        0
    } else if n == 1 {
        v % 2
    } else if n == 2 {
        v % 4
    } else if n == 3 {
        v % 8
    } else if n == 4 {
        v % 16
    } else if n == 5 {
        v % 32
    } else if n == 6 {
        v % 64
    } else if n == 7 {
        v % 128
    } else if n == 8 {
        v % 256
    } else if n == 9 {
        v % 512
    } else if n == 10 {
        v % 1024
    } else if n == 11 {
        v % 2048
    } else if n == 12 {
        v % 4096
    } else if n == 13 {
        v % 8192
    } else if n == 14 {
        v % 16384
    } else if n == 15 {
        v % 32768
    } else {
        v % 65536
    }
}

/// `v` with its low `n` bits dropped (`v div 2^n`), for `n` from 0 to 16.
pub open spec fn shift_down(v: int, n: int) -> int {
    if n <= 0 {
        v
    } else if n == 1 {
        v / 2
    } else if n == 2 {
        v / 4
    } else if n == 3 {
        v / 8
    } else if n == 4 {
        v / 16
    } else if n == 5 {
        v / 32
    } else if n == 6 {
        v / 64
    } else if n == 7 {
        v / 128
    } else if n == 8 {
        v / 256
    } else if n == 9 {
        v / 512
    } else if n == 10 {
        v / 1024
    } else if n == 11 {
        v / 2048
    } else if n == 12 {
        v / 4096
    } else if n == 13 {
        v / 8192
    } else if n == 14 {
        v / 16384
    } else if n == 15 {
        v / 32768
    } else {
        v / 65536
    }
}

/// `v` moved up by `n` bits (`v * 2^n`), for `n` from 0 to 16.
pub open spec fn shift_up(v: int, n: int) -> int {
    if n <= 0 {
        v
    } else if n == 1 {
        v * 2
    } else if n == 2 {
        v * 4
    } else if n == 3 {
        v * 8
    } else if n == 4 {
        v * 16
    } else if n == 5 {
        v * 32
    } else if n == 6 {
        v * 64
    } else if n == 7 {
        v * 128
    } else if n == 8 {
        v * 256
    } else if n == 9 {
        v * 512
    } else if n == 10 {
        v * 1024
    } else if n == 11 {
        v * 2048
    } else if n == 12 {
        v * 4096
    } else if n == 13 {
        v * 8192
    } else if n == 14 {
        v * 16384
    } else if n == 15 {
        v * 32768
    } else {
        v * 65536
    }
}

/// `a - b` wrapped into the range of `n` bits, for `a` and `b` below `2^n`.
pub open spec fn wrapped_difference(a: int, b: int, n: int) -> int {
    if a >= b {
        a - b
    } else {
        a - b + modulus(n)
    }
}

/// `v * 2^k` reduced to `n` bits; zero once `k` reaches the width.
pub open spec fn shifted_left(v: int, k: int, n: int) -> int {
    if k >= n {
        0
    } else {
        truncate(shift_up(v, k), n)
    }
}

/// `v div 2^k` for a value of `n` bits; zero once `k` reaches the width.
pub open spec fn shifted_right(v: int, k: int, n: int) -> int {
    if k >= n {
        0
    } else {
        shift_down(v, k)
    }
}

/// The sum of `values`, wrapped to `n` bits after every addition.
pub open spec fn wrapped_sum(values: Seq<int>, n: int) -> int
    decreases values.len(),
{
    if values.len() == 0 {
        0
    } else {
        truncate(wrapped_sum(values.drop_last(), n) + values.last(), n)
    }
}

/// The all-ones pattern of `n` bits, `(1 << n) - 1`, as a 16-bit word.
pub open spec fn low_mask(n: int) -> u16 {
    (modulus(n) - 1) as u16
}

/// The smaller of two widths.
pub open spec fn min_width(n: int, m: int) -> int {
    if n <= m {
        n
    } else {
        m
    }
}

/// An unsigned integer truncated to `N` bits, `1 <= N <= 16`.
#[derive(Clone, Copy, Debug, Eq)]
pub struct NBitNumber<const N: usize> {
    value: u16,
}

impl<const N: usize> View for NBitNumber<N> {
    type V = int;

    /// The number that is held.
    closed spec fn view(&self) -> int {
        self.value as int
    }
}

/// What the number operations share: the largest value, zero, and the plain
/// integer that a number holds.
pub trait NumberOperations<const N: usize>: Sized {
    /// The integer that the number stands for.
    spec fn number(&self) -> int;

    /// The largest value of the width: all `N` bits set.
    fn get_max() -> (r: Self)
        requires
            1 <= N <= 16,
        ensures
            r.number() == modulus(N as int) - 1,
    ;

    /// The value as a plain 16-bit integer.
    fn as_u16(&self) -> (r: u16)
        ensures
            r == self.number(),
    ;

    /// The value as an index.
    fn as_usize(&self) -> (r: usize)
        ensures
            r == self.number(),
    ;

    /// The value as a plain 16-bit integer.
    fn get(&self) -> (r: u16)
        ensures
            r == self.number(),
    ;

    /// Zero.
    fn new() -> (r: Self)
        requires
            1 <= N <= 16,
        ensures
            r.number() == 0,
    ;
}

/// Masking a word to its low `n` bits is reduction modulo `2^n`, and
/// `1 << n` is `modulus(n)`.
proof fn lemma_mask_is_mod(v: u32, n: u32)
    by (bit_vector)
    requires
        n <= 16,
    ensures
        (1u32 << n) == modulus(n as int),
        (v & (((1u32 << n) - 1) as u32)) == truncate(v as int, n as int),
        (v & (((1u32 << n) - 1) as u32)) < (1u32 << n),
        v <= 0xFFFF ==> (v & (((1u32 << n) - 1) as u32)) == (v as u16) & low_mask(n as int),
{
}

/// Bitwise and, or and complement of values below `2^n` stay below `2^n`.
proof fn lemma_bitwise_in_range(a: u16, b: u16, n: u32)
    by (bit_vector)
    requires
        1 <= n <= 16,
        (a as u32) < (1u32 << n),
        (b as u32) < (1u32 << n),
    ensures
        ((a & b) as u32) < (1u32 << n),
        ((a | b) as u32) < (1u32 << n),
        (((!a) as u32) & (((1u32 << n) - 1) as u32)) == (1u32 << n) - 1 - (a as u32),
{
}

/// A difference of two values below `2^n`, after `2^n` was added to keep it
/// positive, has the low bits of the wrapped difference.
proof fn lemma_sub_wraps(a: u32, b: u32, n: u32)
    by (bit_vector)
    requires
        1 <= n <= 16,
        a < (1u32 << n),
        b < (1u32 << n),
    ensures
        a >= b ==> ((a + (1u32 << n) - b) as u32 & (((1u32 << n) - 1) as u32)) == a - b,
        a < b ==> ((a + (1u32 << n) - b) as u32 & (((1u32 << n) - 1) as u32)) == a + (1u32 << n)
            - b,
{
}

/// Shifts of a 16-bit value by less than 16 places, as products and quotients.
proof fn lemma_shift_is_arith(a: u16, k: u32)
    by (bit_vector)
    requires
        k < 16,
    ensures
        ((a as u32) << k) == shift_up(a as int, k as int),
        (a >> k) == shift_down(a as int, k as int),
        (a >> k) <= a,
{
}

impl<const N: usize> NBitNumber<N> {
    /// The width in bits.
    pub fn bits() -> (r: usize)
        ensures
            r == N,
    {
        N
    }

    /// Validity: the width lies between 1 and 16 and the value fits in it.
    /// Every number that executable code can hold is valid.
    #[verifier::type_invariant]
    pub closed spec fn wf(&self) -> bool {
        1 <= N <= 16 && self.value < modulus(N as int)
    }

    /// The number that holds `v`, for `0 <= v < 2^N`.
    pub closed spec fn from_int(v: int) -> Self {
        NBitNumber { value: v as u16 }
    }

    /// A valid number lies below `2^N`, and two numbers with the same value
    /// are the same number.
    pub proof fn lemma_valid(self)
        requires
            self.wf(),
        ensures
            1 <= N <= 16,
            0 <= self@ < modulus(N as int),
            self == Self::from_int(self@),
    {
    }

    /// `from_int` of a value in range is valid and holds that value.
    pub proof fn lemma_from_int(v: int)
        requires
            1 <= N <= 16,
            0 <= v < modulus(N as int),
        ensures
            Self::from_int(v).wf(),
            Self::from_int(v)@ == v,
    {
    }

    /// Truncates `value` to its low `N` bits. Bits above the width are
    /// discarded; no input is rejected.
    pub fn new(value: u16) -> (r: Self)
        requires
            1 <= N <= 16,
        ensures
            r.wf(),
            r@ == value & low_mask(N as int),
            r@ == truncate(value as int, N as int),
    {
        let bits: u32 = N as u32;
        let wide: u32 = value as u32;
        proof {
            lemma_mask_is_mod(wide, bits);
        }
        let masked: u32 = wide & ((1u32 << bits) - 1);
        NBitNumber { value: masked as u16 }
    }

    /// The value as a plain integer.
    pub fn get(&self) -> (r: u16)
        ensures
            r == self@,
            self.wf(),
            1 <= N <= 16,
            r < modulus(N as int),
    {
        proof {
            use_type_invariant(self);
        }
        self.value
    }

    /// Whether the two numbers agree in the bits that both widths have: the
    /// low `min(N, M)` bits.
    pub fn compare_lower_bits<const M: usize>(&self, other: &NBitNumber<M>) -> (r: bool)
        ensures
            r == (truncate(self@, min_width(N as int, M as int)) == truncate(
                other@,
                min_width(N as int, M as int),
            )),
    {
        let a: u16 = self.get();
        let b: u16 = other.get();
        let min_bits: usize = if N <= M {
            N
        } else {
            M
        };
        let bits: u32 = min_bits as u32;
        proof {
            lemma_mask_is_mod(a as u32, bits);
            lemma_mask_is_mod(b as u32, bits);
        }
        let mask: u32 = (1u32 << bits) - 1;
        (a as u32 & mask) == (b as u32 & mask)
    }

    /// Whether the two numbers agree in their overlapping bits. Numbers of
    /// different widths overlap in their low `min(N, M)` bits, so this is the
    /// same comparison as [`Self::compare_lower_bits`].
    pub fn compare_upper_bits<const M: usize>(&self, other: &NBitNumber<M>) -> (r: bool)
        ensures
            r == (truncate(self@, min_width(N as int, M as int)) == truncate(
                other@,
                min_width(N as int, M as int),
            )),
    {
        self.compare_lower_bits(other)
    }

    /// The values that `numbers` hold, in order.
    pub open spec fn values_of(numbers: Seq<NBitNumber<N>>) -> Seq<int> {
        Seq::new(numbers.len(), |i: int| numbers[i]@)
    }

    /// The sum of `numbers`, wrapped to `N` bits; zero for none.
    pub fn sum_of(numbers: &[NBitNumber<N>]) -> (r: Self)
        requires
            1 <= N <= 16,
        ensures
            r.wf(),
            r@ == wrapped_sum(Self::values_of(numbers@), N as int),
    {
        let mut total: NBitNumber<N> = NBitNumber { value: 0 };
        let mut i: usize = 0;
        while i < numbers.len()
            invariant
                1 <= N <= 16,
                i <= numbers@.len(),
                total.wf(),
                total@ == wrapped_sum(Self::values_of(numbers@.take(i as int)), N as int),
            decreases numbers@.len() - i,
        {
            assert(Self::values_of(numbers@.take(i + 1)).drop_last() =~= Self::values_of(
                numbers@.take(i as int),
            ));
            total = total + numbers[i];
            i += 1;
        }
        assert(numbers@.take(i as int) =~= numbers@);
        total
    }
}

impl<const N: usize> NumberOperations<N> for NBitNumber<N> {
    open spec fn number(&self) -> int {
        self@
    }

    fn get_max() -> (r: Self)
        ensures
            r.wf(),
            r@ == low_mask(N as int),
    {
        let bits: u32 = N as u32;
        proof {
            lemma_mask_is_mod(0, bits);
        }
        let all: u32 = (1u32 << bits) - 1;
        NBitNumber { value: all as u16 }
    }

    fn as_u16(&self) -> (r: u16)
        ensures
            r < modulus(N as int),
    {
        proof {
            use_type_invariant(self);
        }
        self.value
    }

    fn as_usize(&self) -> (r: usize)
        ensures
            r < modulus(N as int),
    {
        proof {
            use_type_invariant(self);
        }
        self.value as usize
    }

    fn get(&self) -> u16 {
        self.value
    }

    fn new() -> Self {
        NBitNumber { value: 0 }
    }
}

impl<const N: usize> core::ops::Add for NBitNumber<N> {
    type Output = Self;

    /// The sum, wrapped to `N` bits.
    fn add(self, rhs: Self) -> (r: Self)
        ensures
            r.wf(),
            r@ == truncate(self@ + rhs@, N as int),
    {
        proof {
            use_type_invariant(self);
            use_type_invariant(rhs);
        }
        let bits: u32 = N as u32;
        let wide: u32 = self.value as u32 + rhs.value as u32;
        proof {
            lemma_mask_is_mod(wide, bits);
        }
        let masked: u32 = wide & ((1u32 << bits) - 1);
        NBitNumber { value: masked as u16 }
    }
}

impl<const N: usize> vstd::std_specs::ops::AddSpecImpl for NBitNumber<N> {
    open spec fn obeys_add_spec() -> bool {
        true
    }

    open spec fn add_req(self, rhs: Self) -> bool {
        true
    }

    open spec fn add_spec(self, rhs: Self) -> Self {
        Self::from_int(truncate(self@ + rhs@, N as int))
    }
}

impl<const N: usize> core::ops::Sub for NBitNumber<N> {
    type Output = Self;

    /// The difference, wrapped to `N` bits: `2^N` is added where it would be
    /// negative.
    fn sub(self, rhs: Self) -> (r: Self)
        ensures
            r.wf(),
            r@ == wrapped_difference(self@, rhs@, N as int),
            0 <= self@ < modulus(N as int),
            0 <= rhs@ < modulus(N as int),
    {
        proof {
            use_type_invariant(self);
            use_type_invariant(rhs);
        }
        let bits: u32 = N as u32;
        proof {
            lemma_mask_is_mod(0, bits);
            lemma_sub_wraps(self.value as u32, rhs.value as u32, bits);
        }
        let wide: u32 = self.value as u32 + (1u32 << bits) - rhs.value as u32;
        proof {
            lemma_mask_is_mod(wide, bits);
        }
        let masked: u32 = wide & ((1u32 << bits) - 1);
        NBitNumber { value: masked as u16 }
    }
}

impl<const N: usize> vstd::std_specs::ops::SubSpecImpl for NBitNumber<N> {
    open spec fn obeys_sub_spec() -> bool {
        true
    }

    open spec fn sub_req(self, rhs: Self) -> bool {
        true
    }

    open spec fn sub_spec(self, rhs: Self) -> Self {
        Self::from_int(wrapped_difference(self@, rhs@, N as int))
    }
}

impl<const N: usize> core::ops::BitAnd for NBitNumber<N> {
    type Output = Self;

    /// The bits that both numbers have set.
    fn bitand(self, rhs: Self) -> (r: Self)
        ensures
            r.wf(),
            r@ == (self@ as u16) & (rhs@ as u16),
    {
        proof {
            use_type_invariant(self);
            use_type_invariant(rhs);
            lemma_mask_is_mod(0, N as u32);
            lemma_bitwise_in_range(self.value, rhs.value, N as u32);
        }
        NBitNumber { value: self.value & rhs.value }
    }
}

impl<const N: usize> vstd::std_specs::ops::BitAndSpecImpl for NBitNumber<N> {
    open spec fn obeys_bitand_spec() -> bool {
        true
    }

    open spec fn bitand_req(self, rhs: Self) -> bool {
        true
    }

    open spec fn bitand_spec(self, rhs: Self) -> Self {
        Self::from_int(((self@ as u16) & (rhs@ as u16)) as int)
    }
}

impl<const N: usize> core::ops::BitOr for NBitNumber<N> {
    type Output = Self;

    /// The bits that either number has set.
    fn bitor(self, rhs: Self) -> (r: Self)
        ensures
            r.wf(),
            r@ == (self@ as u16) | (rhs@ as u16),
    {
        proof {
            use_type_invariant(self);
            use_type_invariant(rhs);
            lemma_mask_is_mod(0, N as u32);
            lemma_bitwise_in_range(self.value, rhs.value, N as u32);
        }
        NBitNumber { value: self.value | rhs.value }
    }
}

impl<const N: usize> vstd::std_specs::ops::BitOrSpecImpl for NBitNumber<N> {
    open spec fn obeys_bitor_spec() -> bool {
        true
    }

    open spec fn bitor_req(self, rhs: Self) -> bool {
        true
    }

    open spec fn bitor_spec(self, rhs: Self) -> Self {
        Self::from_int(((self@ as u16) | (rhs@ as u16)) as int)
    }
}

impl<const N: usize> core::ops::Not for NBitNumber<N> {
    type Output = Self;

    /// The complement within the width: every one of the `N` bits flipped.
    fn not(self) -> (r: Self)
        ensures
            r.wf(),
            r@ == modulus(N as int) - 1 - self@,
    {
        proof {
            use_type_invariant(self);
        }
        let bits: u32 = N as u32;
        proof {
            lemma_mask_is_mod(0, bits);
            lemma_bitwise_in_range(self.value, self.value, bits);
        }
        let flipped: u32 = ((!self.value) as u32) & ((1u32 << bits) - 1);
        NBitNumber { value: flipped as u16 }
    }
}

impl<const N: usize> vstd::std_specs::ops::NotSpecImpl for NBitNumber<N> {
    open spec fn obeys_not_spec() -> bool {
        true
    }

    open spec fn not_req(self) -> bool {
        true
    }

    open spec fn not_spec(self) -> Self {
        Self::from_int(modulus(N as int) - 1 - self@)
    }
}

impl<const N: usize> core::ops::Shl<u32> for NBitNumber<N> {
    type Output = Self;

    /// The value moved up by `rhs` bits, wrapped to `N` bits. A shift by the
    /// width or more leaves zero.
    fn shl(self, rhs: u32) -> (r: Self)
        ensures
            r.wf(),
            r@ == shifted_left(self@, rhs as int, N as int),
    {
        proof {
            use_type_invariant(self);
        }
        let bits: u32 = N as u32;
        if rhs >= bits {
            NBitNumber { value: 0 }
        } else {
            proof {
                lemma_shift_is_arith(self.value, rhs);
            }
            let wide: u32 = (self.value as u32) << rhs;
            proof {
                lemma_mask_is_mod(wide, bits);
            }
            let masked: u32 = wide & ((1u32 << bits) - 1);
            NBitNumber { value: masked as u16 }
        }
    }
}

impl<const N: usize> vstd::std_specs::ops::ShlSpecImpl<u32> for NBitNumber<N> {
    open spec fn obeys_shl_spec() -> bool {
        true
    }

    open spec fn shl_req(self, rhs: u32) -> bool {
        true
    }

    open spec fn shl_spec(self, rhs: u32) -> Self {
        Self::from_int(shifted_left(self@, rhs as int, N as int))
    }
}

impl<const N: usize> core::ops::Shr<u32> for NBitNumber<N> {
    type Output = Self;

    /// The value moved down by `rhs` bits. A shift by the width or more
    /// leaves zero.
    fn shr(self, rhs: u32) -> (r: Self)
        ensures
            r.wf(),
            r@ == shifted_right(self@, rhs as int, N as int),
    {
        proof {
            use_type_invariant(self);
        }
        let bits: u32 = N as u32;
        if rhs >= bits {
            NBitNumber { value: 0 }
        } else {
            proof {
                lemma_shift_is_arith(self.value, rhs);
            }
            NBitNumber { value: self.value >> rhs }
        }
    }
}

impl<const N: usize> vstd::std_specs::ops::ShrSpecImpl<u32> for NBitNumber<N> {
    open spec fn obeys_shr_spec() -> bool {
        true
    }

    open spec fn shr_req(self, rhs: u32) -> bool {
        true
    }

    open spec fn shr_spec(self, rhs: u32) -> Self {
        Self::from_int(shifted_right(self@, rhs as int, N as int))
    }
}

impl<const N: usize> core::convert::From<NBitNumber<N>> for u16 {
    /// The value as a plain 16-bit integer.
    fn from(number: NBitNumber<N>) -> (r: u16)
        ensures
            r == number@,
    {
        number.value
    }
}

impl<const N: usize> vstd::std_specs::convert::FromSpecImpl<NBitNumber<N>> for u16 {
    open spec fn obeys_from_spec() -> bool {
        true
    }

    open spec fn from_spec(number: NBitNumber<N>) -> u16 {
        number@ as u16
    }
}

impl<const N: usize> PartialEq for NBitNumber<N> {
    /// Two numbers of one width are equal when they hold the same value.
    fn eq(&self, other: &Self) -> (r: bool) {
        self.value == other.value
    }
}

impl<const N: usize> PartialEqSpecImpl for NBitNumber<N> {
    open spec fn obeys_eq_spec() -> bool {
        true
    }

    open spec fn eq_spec(&self, other: &Self) -> bool {
        self@ == other@
    }
}

impl<const N: usize> PartialOrd for NBitNumber<N> {
    /// Numbers of one width are ordered by their values.
    fn partial_cmp(&self, other: &Self) -> (r: Option<Ordering>) {
        if self.value < other.value {
            Some(Ordering::Less)
        } else if self.value == other.value {
            Some(Ordering::Equal)
        } else {
            Some(Ordering::Greater)
        }
    }
}

impl<const N: usize> PartialOrdSpecImpl for NBitNumber<N> {
    open spec fn obeys_partial_cmp_spec() -> bool {
        true
    }

    open spec fn partial_cmp_spec(&self, other: &Self) -> Option<Ordering> {
        if self@ < other@ {
            Some(Ordering::Less)
        } else if self@ == other@ {
            Some(Ordering::Equal)
        } else {
            Some(Ordering::Greater)
        }
    }
}

pub type u12 = NBitNumber<12>;

pub type u9 = NBitNumber<9>;

pub type u7 = NBitNumber<7>;

pub type u5 = NBitNumber<5>;

pub type u3 = NBitNumber<3>;

pub type u2 = NBitNumber<2>;

/// A number of any width from 1 to 16 bits, tagged with its width.
#[derive(Clone, Copy, Debug)]
pub enum NBit {
    N1(NBitNumber<1>),
    N2(NBitNumber<2>),
    N3(NBitNumber<3>),
    N4(NBitNumber<4>),
    N5(NBitNumber<5>),
    N6(NBitNumber<6>),
    N7(NBitNumber<7>),
    N8(NBitNumber<8>),
    N9(NBitNumber<9>),
    N10(NBitNumber<10>),
    N11(NBitNumber<11>),
    N12(NBitNumber<12>),
    N13(NBitNumber<13>),
    N14(NBitNumber<14>),
    N15(NBitNumber<15>),
    N16(NBitNumber<16>),
}

impl NBit {
    /// The width in bits.
    pub open spec fn width(self) -> int {
        match self {
            NBit::N1(_) => 1,
            NBit::N2(_) => 2,
            NBit::N3(_) => 3,
            NBit::N4(_) => 4,
            NBit::N5(_) => 5,
            NBit::N6(_) => 6,
            NBit::N7(_) => 7,
            NBit::N8(_) => 8,
            NBit::N9(_) => 9,
            NBit::N10(_) => 10,
            NBit::N11(_) => 11,
            NBit::N12(_) => 12,
            NBit::N13(_) => 13,
            NBit::N14(_) => 14,
            NBit::N15(_) => 15,
            NBit::N16(_) => 16,
        }
    }

    /// The number that is held.
    pub open spec fn number(self) -> int {
        match self {
            NBit::N1(n) => n@,
            NBit::N2(n) => n@,
            NBit::N3(n) => n@,
            NBit::N4(n) => n@,
            NBit::N5(n) => n@,
            NBit::N6(n) => n@,
            NBit::N7(n) => n@,
            NBit::N8(n) => n@,
            NBit::N9(n) => n@,
            NBit::N10(n) => n@,
            NBit::N11(n) => n@,
            NBit::N12(n) => n@,
            NBit::N13(n) => n@,
            NBit::N14(n) => n@,
            NBit::N15(n) => n@,
            NBit::N16(n) => n@,
        }
    }

    /// The width in bits.
    pub fn bits(&self) -> (r: usize)
        ensures
            r == self.width(),
            1 <= r <= 16,
    {
        match self {
            NBit::N1(_) => 1,
            NBit::N2(_) => 2,
            NBit::N3(_) => 3,
            NBit::N4(_) => 4,
            NBit::N5(_) => 5,
            NBit::N6(_) => 6,
            NBit::N7(_) => 7,
            NBit::N8(_) => 8,
            NBit::N9(_) => 9,
            NBit::N10(_) => 10,
            NBit::N11(_) => 11,
            NBit::N12(_) => 12,
            NBit::N13(_) => 13,
            NBit::N14(_) => 14,
            NBit::N15(_) => 15,
            NBit::N16(_) => 16,
        }
    }

    /// The value as a plain integer.
    pub fn get(&self) -> (r: u16)
        ensures
            r == self.number(),
            r < modulus(self.width()),
    {
        match self {
            NBit::N1(n) => n.get(),
            NBit::N2(n) => n.get(),
            NBit::N3(n) => n.get(),
            NBit::N4(n) => n.get(),
            NBit::N5(n) => n.get(),
            NBit::N6(n) => n.get(),
            NBit::N7(n) => n.get(),
            NBit::N8(n) => n.get(),
            NBit::N9(n) => n.get(),
            NBit::N10(n) => n.get(),
            NBit::N11(n) => n.get(),
            NBit::N12(n) => n.get(),
            NBit::N13(n) => n.get(),
            NBit::N14(n) => n.get(),
            NBit::N15(n) => n.get(),
            NBit::N16(n) => n.get(),
        }
    }
}

} // verus!
