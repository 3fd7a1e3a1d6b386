use crate::widen::Widen;
use core::cmp::Ordering;
use vstd::std_specs::cmp::PartialEqSpec;
use vstd::std_specs::cmp::PartialOrdSpec;
use vstd::prelude::*;

verus! {

/// Why a value could not be inverted within an interval.
#[derive(Debug, Clone, Copy, PartialEq, Eq, Structural)]
pub enum IntervalError {
    /// The value lies outside the interval.
    OutOfRange,
}

/// A closed interval `[from, to]`. One made by [`NumInterval::new`] has
/// `from <= to`; the fields are public, so the methods say what they return
/// for any pair of endpoints.
#[derive(Debug, Copy)]
pub struct NumInterval<T> {
    pub from: T,
    pub to: T,
}

impl<T: Copy> Clone for NumInterval<T> {
    fn clone(&self) -> (r: Self)
        ensures
            r == *self,
    {
        *self
    }
}

/// Division by two that rounds toward zero, as the machine's `/` does.
pub open spec fn half_toward_zero(s: int) -> int {
    if s >= 0 {
        s / 2
    } else {
        -((-s) / 2)
    }
}

impl<T: Widen> NumInterval<T> {
    /// The lower endpoint as an integer.
    pub open spec fn lo(self) -> int {
        self.from.wide()
    }

    /// The upper endpoint as an integer.
    pub open spec fn hi(self) -> int {
        self.to.wide()
    }

    /// The endpoints are in order.
    pub open spec fn wf(self) -> bool {
        self.lo() <= self.hi()
    }

    /// The interval with endpoints `x` and `y`, whichever is the smaller.
    pub open spec fn spec_new(x: T, y: T) -> Self {
        if x.wide() > y.wide() {
            NumInterval { from: y, to: x }
        } else {
            NumInterval { from: x, to: y }
        }
    }

    /// The distance between the endpoints.
    pub open spec fn spec_span(self) -> int {
        self.hi() - self.lo()
    }

    /// Whether `v` lies in the interval, the endpoints included.
    pub open spec fn spec_contains_inclusive(self, v: int) -> bool {
        self.lo() <= v <= self.hi()
    }

    /// Whether `v` lies in the interval, the upper endpoint left out.
    pub open spec fn spec_contains_exclusive(self, v: int) -> bool {
        self.lo() <= v < self.hi()
    }

    /// The value of the interval nearest to `v`.
    pub open spec fn spec_clamp(self, v: int) -> int {
        if v < self.lo() {
            self.lo()
        } else if v > self.hi() {
            self.hi()
        } else {
            v
        }
    }

    /// The mirror image of `v` about the interval's centre.
    pub open spec fn spec_invert(self, v: int) -> int {
        self.lo() + self.hi() - v
    }

    /// The centre of the interval, rounded toward zero.
    pub open spec fn spec_midpoint(self) -> int {
        half_toward_zero(self.lo() + self.hi())
    }

    /// Makes the interval with the given endpoints, swapping them if they
    /// come in descending order.
    pub fn new(from: T, to: T) -> (r: Self)
        ensures
            r == Self::spec_new(from, to),
            r.wf(),
    {
        if from.widen() > to.widen() {
            return Self { from: to, to: from };
        }
        Self { from, to }
    }

    /// Whether `value` lies in the interval, the endpoints included.
    pub fn contains_inclusive(&self, value: T) -> (b: bool)
        ensures
            b == self.spec_contains_inclusive(value.wide()),
    {
        let v: i128 = value.widen();
        v >= self.from.widen() && v <= self.to.widen()
    }

    /// Whether `value` lies in the interval, the upper endpoint left out.
    pub fn contains_exclusive(&self, value: T) -> (b: bool)
        ensures
            b == self.spec_contains_exclusive(value.wide()),
    {
        let v: i128 = value.widen();
        v >= self.from.widen() && v < self.to.widen()
    }

    /// The value of the interval nearest to `value`.
    pub fn clamp(&self, value: T) -> (r: T)
        ensures
            r.wide() == self.spec_clamp(value.wide()),
            r == if value.wide() < self.lo() {
                self.from
            } else if value.wide() > self.hi() {
                self.to
            } else {
                value
            },
    {
        let v: i128 = value.widen();
        if v < self.from.widen() {
            self.from
        } else if v > self.to.widen() {
            self.to
        } else {
            value
        }
    }

    /// `from + to - value` for a value of the interval; an error for any other.
    pub fn try_invert_value(&self, value: T) -> (r: Result<T, IntervalError>)
        ensures
            r is Ok <==> self.spec_contains_inclusive(value.wide()),
            r matches Ok(v) ==> v.wide() == self.spec_invert(value.wide()),
            r matches Err(e) ==> e == IntervalError::OutOfRange,
    {
        if self.contains_inclusive(value) {
            proof {
                self.from.lemma_limits();
                self.to.lemma_limits();
                value.lemma_limits();
            }
            let w: i128 = (self.to.widen() + self.from.widen()) - value.widen();
            match T::narrow(w) {
                Some(v) => Ok(v),
                None => Err(IntervalError::OutOfRange),
            }
        } else {
            Err(IntervalError::OutOfRange)
        }
    }

    /// Clamps `value` onto the interval and mirrors the result about the
    /// centre. Where the endpoints are out of order, so that the interval
    /// holds nothing, `value` comes back as it is.
    pub fn clamp_and_invert(&self, value: T) -> (r: T)
        ensures
            self.wf() ==> r.wide() == self.spec_invert(self.spec_clamp(value.wide())),
            !self.wf() ==> r == value,
    {
        match self.try_invert_value(self.clamp(value)) {
            Ok(v) => v,
            Err(_) => value,
        }
    }

    /// The centre of the interval, rounded toward zero.
    pub fn midpoint(&self) -> (r: T)
        ensures
            r.wide() == self.spec_midpoint(),
    {
        proof {
            self.from.lemma_limits();
            self.to.lemma_limits();
        }
        let s: i128 = self.from.widen() + self.to.widen();
        let h: i128 = s / 2;
        match T::narrow(h) {
            Some(v) => v,
            None => self.from,
        }
    }

    /// The distance between the endpoints, never narrowed.
    pub fn span_w(&self) -> (w: i128)
        ensures
            w == self.spec_span(),
    {
        proof {
            self.from.lemma_limits();
            self.to.lemma_limits();
        }
        self.to.widen() - self.from.widen()
    }

    /// The distance between the endpoints in the endpoints' own type.
    pub fn span(&self) -> (r: T)
        requires
            T::lowest() <= self.spec_span() <= T::highest(),
        ensures
            r.wide() == self.spec_span(),
    {
        match T::narrow(self.span_w()) {
            Some(v) => v,
            None => self.from,
        }
    }

    /// The same interval over another integer type, where both endpoints fit.
    pub fn cast<U: Widen>(&self) -> (r: Option<NumInterval<U>>)
        ensures
            r is Some <==> U::lowest() <= self.lo() <= U::highest() && U::lowest() <= self.hi()
                <= U::highest(),
            r matches Some(i) ==> i.lo() == self.lo() && i.hi() == self.hi(),
    {
        match U::narrow(self.from.widen()) {
            Some(from) => match U::narrow(self.to.widen()) {
                Some(to) => Some(NumInterval { from, to }),
                None => None,
            },
            None => None,
        }
    }
}

/// How two integers compare.
pub open spec fn int_ordering(a: int, b: int) -> Ordering {
    if a < b {
        Ordering::Less
    } else if a == b {
        Ordering::Equal
    } else {
        Ordering::Greater
    }
}

/// How two intervals compare: by span, and among those of one span by the
/// lower endpoint.
pub open spec fn interval_ordering(span_a: int, from_a: int, span_b: int, from_b: int) -> Ordering {
    if span_a != span_b {
        int_ordering(span_a, span_b)
    } else {
        int_ordering(from_a, from_b)
    }
}

fn order_of(a: i128, b: i128) -> (r: Ordering)
    ensures
        a < b <==> r == Ordering::Less,
        a == b <==> r == Ordering::Equal,
        a > b <==> r == Ordering::Greater,
{
    if a < b {
        Ordering::Less
    } else if a == b {
        Ordering::Equal
    } else {
        Ordering::Greater
    }
}

/// Two intervals are equal where their spans are.
impl<T: Widen> PartialEq for NumInterval<T> {
    fn eq(&self, other: &Self) -> (r: bool) {
        self.span_w() == other.span_w()
    }
}

impl<T: Widen> vstd::std_specs::cmp::PartialEqSpecImpl for NumInterval<T> {
    open spec fn obeys_eq_spec() -> bool {
        true
    }

    open spec fn eq_spec(&self, other: &Self) -> bool {
        self.spec_span() == other.spec_span()
    }
}

impl<T: Widen> Eq for NumInterval<T> {
}

impl<T: Widen> PartialOrd for NumInterval<T> {
    fn partial_cmp(&self, other: &Self) -> (r: Option<Ordering>) {
        let by_span = order_of(self.span_w(), other.span_w());
        match by_span {
            Ordering::Equal => Some(order_of(self.from.widen(), other.from.widen())),
            _ => Some(by_span),
        }
    }
}

impl<T: Widen> vstd::std_specs::cmp::PartialOrdSpecImpl for NumInterval<T> {
    open spec fn obeys_partial_cmp_spec() -> bool {
        true
    }

    open spec fn partial_cmp_spec(&self, other: &Self) -> Option<Ordering> {
        Some(interval_ordering(self.spec_span(), self.lo(), other.spec_span(), other.lo()))
    }
}

/// Whichever order the endpoints are given in, the interval is the same;
/// clamping lands in it; and a value of it has its mirror image in it, which
/// mirrored again is the value.
pub proof fn lemma_clamp_and_invert_stay_inside<T: Widen>(x: T, y: T, v: T)
    ensures
        ({
            let r = NumInterval::spec_new(x, y);
            let s = NumInterval::spec_new(y, x);
            &&& r.wf()
            &&& r.lo() == s.lo() && r.hi() == s.hi()
            &&& r.spec_contains_inclusive(r.spec_clamp(v.wide()))
            &&& r.spec_contains_inclusive(v.wide()) ==> {
                &&& r.spec_contains_inclusive(r.spec_invert(v.wide()))
                &&& r.spec_invert(r.spec_invert(v.wide())) == v.wide()
            }
        }),
{
}

/// The interval of the smaller span is the lesser one; of two with one span,
/// the one that starts lower.
pub proof fn lemma_ordering_by_span_then_from<T: Widen>(r1: NumInterval<T>, r2: NumInterval<T>)
    ensures
        r1.spec_span() < r2.spec_span() ==> r1.partial_cmp_spec(&r2) == Some(Ordering::Less),
        r1.spec_span() == r2.spec_span() ==> r1.partial_cmp_spec(&r2) == Some(
            int_ordering(r1.lo(), r2.lo()),
        ),
        r1.eq_spec(&r2) <==> r1.spec_span() == r2.spec_span(),
{
}

} // verus!
