use vstd::prelude::*;

verus! {

/// An integer type whose values can be carried into `i128` and back, so that
/// a sum or a difference of two endpoints can be formed without leaving the
/// machine type in which it is computed.
pub trait Widen: Copy + Sized {
    /// The mathematical integer that `self` stands for.
    spec fn wide(self) -> int;

    /// The least integer that the type holds.
    spec fn lowest() -> int;

    /// The greatest integer that the type holds.
    spec fn highest() -> int;

    /// Every value lies between the type's limits, and those lie within 65 bits.
    proof fn lemma_limits(self)
        ensures
            -0x1_0000_0000_0000_0000 <= Self::lowest() <= self.wide() <= Self::highest()
                <= 0x1_0000_0000_0000_0000,
    ;

    /// Distinct values stand for distinct integers.
    proof fn lemma_wide_injective(self, other: Self)
        ensures
            self.wide() == other.wide() ==> self == other,
    ;

    /// The value as an `i128`.
    fn widen(self) -> (w: i128)
        ensures
            w == self.wide(),
    ;

    /// The value of the type that stands for `w`, where the type holds one.
    fn narrow(w: i128) -> (r: Option<Self>)
        ensures
            r is Some <==> Self::lowest() <= w <= Self::highest(),
            r matches Some(v) ==> v.wide() == w,
    ;
}

impl Widen for i8 {
    open spec fn wide(self) -> int {
        self as int
    }

    open spec fn lowest() -> int {
        i8::MIN as int
    }

    open spec fn highest() -> int {
        i8::MAX as int
    }

    proof fn lemma_limits(self) {
    }

    proof fn lemma_wide_injective(self, other: Self) {
    }

    fn widen(self) -> (w: i128) {
        self as i128
    }

    fn narrow(w: i128) -> (r: Option<Self>) {
        if w >= i8::MIN as i128 && w <= i8::MAX as i128 {
            Some(w as i8)
        } else {
            None
        }
    }
}

impl Widen for i16 {
    open spec fn wide(self) -> int {
        self as int
    }

    open spec fn lowest() -> int {
        i16::MIN as int
    }

    open spec fn highest() -> int {
        i16::MAX as int
    }

    proof fn lemma_limits(self) {
    }

    proof fn lemma_wide_injective(self, other: Self) {
    }

    fn widen(self) -> (w: i128) {
        self as i128
    }

    fn narrow(w: i128) -> (r: Option<Self>) {
        if w >= i16::MIN as i128 && w <= i16::MAX as i128 {
            Some(w as i16)
        } else {
            None
        }
    }
}

impl Widen for i32 {
    open spec fn wide(self) -> int {
        self as int
    }

    open spec fn lowest() -> int {
        i32::MIN as int
    }

    open spec fn highest() -> int {
        i32::MAX as int
    }

    proof fn lemma_limits(self) {
    }

    proof fn lemma_wide_injective(self, other: Self) {
    }

    fn widen(self) -> (w: i128) {
        self as i128
    }

    fn narrow(w: i128) -> (r: Option<Self>) {
        if w >= i32::MIN as i128 && w <= i32::MAX as i128 {
            Some(w as i32)
        } else {
            None
        }
    }
}

impl Widen for i64 {
    open spec fn wide(self) -> int {
        self as int
    }

    open spec fn lowest() -> int {
        i64::MIN as int
    }

    open spec fn highest() -> int {
        i64::MAX as int
    }

    proof fn lemma_limits(self) {
    }

    proof fn lemma_wide_injective(self, other: Self) {
    }

    fn widen(self) -> (w: i128) {
        self as i128
    }

    fn narrow(w: i128) -> (r: Option<Self>) {
        if w >= i64::MIN as i128 && w <= i64::MAX as i128 {
            Some(w as i64)
        } else {
            None
        }
    }
}

impl Widen for u8 {
    open spec fn wide(self) -> int {
        self as int
    }

    open spec fn lowest() -> int {
        u8::MIN as int
    }

    open spec fn highest() -> int {
        u8::MAX as int
    }

    proof fn lemma_limits(self) {
    }

    proof fn lemma_wide_injective(self, other: Self) {
    }

    fn widen(self) -> (w: i128) {
        self as i128
    }

    fn narrow(w: i128) -> (r: Option<Self>) {
        if w >= u8::MIN as i128 && w <= u8::MAX as i128 {
            Some(w as u8)
        } else {
            None
        }
    }
}

impl Widen for u16 {
    open spec fn wide(self) -> int {
        self as int
    }

    open spec fn lowest() -> int {
        u16::MIN as int
    }

    open spec fn highest() -> int {
        u16::MAX as int
    }

    proof fn lemma_limits(self) {
    }

    proof fn lemma_wide_injective(self, other: Self) {
    }

    fn widen(self) -> (w: i128) {
        self as i128
    }

    fn narrow(w: i128) -> (r: Option<Self>) {
        if w >= u16::MIN as i128 && w <= u16::MAX as i128 {
            Some(w as u16)
        } else {
            None
        }
    }
}

impl Widen for u32 {
    open spec fn wide(self) -> int {
        self as int
    }

    open spec fn lowest() -> int {
        u32::MIN as int
    }

    open spec fn highest() -> int {
        u32::MAX as int
    }

    proof fn lemma_limits(self) {
    }

    proof fn lemma_wide_injective(self, other: Self) {
    }

    fn widen(self) -> (w: i128) {
        self as i128
    }

    fn narrow(w: i128) -> (r: Option<Self>) {
        if w >= u32::MIN as i128 && w <= u32::MAX as i128 {
            Some(w as u32)
        } else {
            None
        }
    }
}

impl Widen for u64 {
    open spec fn wide(self) -> int {
        self as int
    }

    open spec fn lowest() -> int {
        u64::MIN as int
    }

    open spec fn highest() -> int {
        u64::MAX as int
    }

    proof fn lemma_limits(self) {
    }

    proof fn lemma_wide_injective(self, other: Self) {
    }

    fn widen(self) -> (w: i128) {
        self as i128
    }

    fn narrow(w: i128) -> (r: Option<Self>) {
        if w >= u64::MIN as i128 && w <= u64::MAX as i128 {
            Some(w as u64)
        } else {
            None
        }
    }
}

/// The unsigned integer type of the same width.
pub trait MakeUnsigned {
    type Type;
}

impl MakeUnsigned for i8 {
    type Type = u8;
}

impl MakeUnsigned for i16 {
    type Type = u16;
}

impl MakeUnsigned for i32 {
    type Type = u32;
}

impl MakeUnsigned for i64 {
    type Type = u64;
}

impl MakeUnsigned for i128 {
    type Type = u128;
}

impl MakeUnsigned for u8 {
    type Type = u8;
}

impl MakeUnsigned for u16 {
    type Type = u16;
}

impl MakeUnsigned for u32 {
    type Type = u32;
}

impl MakeUnsigned for u64 {
    type Type = u64;
}

impl MakeUnsigned for u128 {
    type Type = u128;
}

} // verus!
