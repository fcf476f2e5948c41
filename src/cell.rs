//! Change-tracking cells: the value of one sampled quantity on this tick and on the tick before.
use vstd::prelude::*;

verus! {

/// A sampled quantity with its current and previous value.
///
/// Until the first sample arrives the cell is uninitialized and reports no transition.
pub struct Watched<T> {
    pub current: T,
    pub previous: T,
    pub initialized: bool,
}

impl<T> Watched<T> {
    /// The cell after one sampling attempt: a value shifts `current` into `previous`,
    /// a missing value leaves the cell as it was.
    pub open spec fn after(self, value: Option<T>) -> Watched<T> {
        match value {
            Some(v) => Watched {
                current: v,
                previous: if self.initialized { self.current } else { v },
                initialized: true,
            },
            None => self,
        }
    }

    /// The current value, or `d` before the first sample.
    pub open spec fn cur_or(self, d: T) -> T {
        if self.initialized { self.current } else { d }
    }

    /// The previous value, or `d` before the first sample.
    pub open spec fn prev_or(self, d: T) -> T {
        if self.initialized { self.previous } else { d }
    }

    pub open spec fn spec_changed(self) -> bool {
        self.initialized && self.current != self.previous
    }

    pub open spec fn spec_changed_to(self, v: T) -> bool {
        self.initialized && self.current == v && self.previous != v
    }

    pub open spec fn spec_changed_from(self, v: T) -> bool {
        self.initialized && self.previous == v && self.current != v
    }

    pub open spec fn spec_changed_from_to(self, a: T, b: T) -> bool {
        self.initialized && a != b && self.previous == a && self.current == b
    }

    /// The last sample repeated the one before it (or there was none).
    pub open spec fn steady(self) -> bool {
        !self.initialized || self.current == self.previous
    }
}

impl<T: Copy> Watched<T> {
    /// An uninitialized cell; `placeholder` is never reported as a sample.
    pub fn new(placeholder: T) -> (r: Self)
        ensures
            !r.initialized,
            r.current == placeholder,
            r.previous == placeholder,
    {
        Watched { current: placeholder, previous: placeholder, initialized: false }
    }

    pub fn update(&mut self, value: Option<T>)
        ensures
            *final(self) == old(self).after(value),
    {
        if let Some(v) = value {
            if self.initialized {
                self.previous = self.current;
            } else {
                self.previous = v;
            }
            self.current = v;
            self.initialized = true;
        }
    }

    pub fn current_or(&self, d: T) -> (r: T)
        ensures
            r == self.cur_or(d),
    {
        if self.initialized { self.current } else { d }
    }

    pub fn previous_or(&self, d: T) -> (r: T)
        ensures
            r == self.prev_or(d),
    {
        if self.initialized { self.previous } else { d }
    }
}

impl Watched<u8> {
    pub fn changed(&self) -> (r: bool)
        ensures
            r == self.spec_changed(),
    {
        self.initialized && self.current != self.previous
    }

    pub fn changed_to(&self, v: u8) -> (r: bool)
        ensures
            r == self.spec_changed_to(v),
    {
        self.initialized && self.current == v && self.previous != v
    }

    pub fn changed_from(&self, v: u8) -> (r: bool)
        ensures
            r == self.spec_changed_from(v),
    {
        self.initialized && self.previous == v && self.current != v
    }

    pub fn changed_from_to(&self, a: u8, b: u8) -> (r: bool)
        ensures
            r == self.spec_changed_from_to(a, b),
    {
        self.initialized && a != b && self.previous == a && self.current == b
    }
}

impl Watched<u32> {
    pub fn changed(&self) -> (r: bool)
        ensures
            r == self.spec_changed(),
    {
        self.initialized && self.current != self.previous
    }

    pub fn changed_to(&self, v: u32) -> (r: bool)
        ensures
            r == self.spec_changed_to(v),
    {
        self.initialized && self.current == v && self.previous != v
    }

    pub fn changed_from(&self, v: u32) -> (r: bool)
        ensures
            r == self.spec_changed_from(v),
    {
        self.initialized && self.previous == v && self.current != v
    }

    pub fn changed_from_to(&self, a: u32, b: u32) -> (r: bool)
        ensures
            r == self.spec_changed_from_to(a, b),
    {
        self.initialized && a != b && self.previous == a && self.current == b
    }
}

impl Watched<u64> {
    pub fn changed(&self) -> (r: bool)
        ensures
            r == self.spec_changed(),
    {
        self.initialized && self.current != self.previous
    }

    pub fn changed_to(&self, v: u64) -> (r: bool)
        ensures
            r == self.spec_changed_to(v),
    {
        self.initialized && self.current == v && self.previous != v
    }

    pub fn changed_from(&self, v: u64) -> (r: bool)
        ensures
            r == self.spec_changed_from(v),
    {
        self.initialized && self.previous == v && self.current != v
    }

    pub fn changed_from_to(&self, a: u64, b: u64) -> (r: bool)
        ensures
            r == self.spec_changed_from_to(a, b),
    {
        self.initialized && a != b && self.previous == a && self.current == b
    }
}

impl Watched<bool> {
    pub fn changed(&self) -> (r: bool)
        ensures
            r == self.spec_changed(),
    {
        self.initialized && self.current != self.previous
    }

    pub fn changed_to(&self, v: bool) -> (r: bool)
        ensures
            r == self.spec_changed_to(v),
    {
        self.initialized && self.current == v && self.previous != v
    }

    pub fn changed_from(&self, v: bool) -> (r: bool)
        ensures
            r == self.spec_changed_from(v),
    {
        self.initialized && self.previous == v && self.current != v
    }

    pub fn changed_from_to(&self, a: bool, b: bool) -> (r: bool)
        ensures
            r == self.spec_changed_from_to(a, b),
    {
        self.initialized && a != b && self.previous == a && self.current == b
    }
}

/// A sampled text quantity (a level name) with its current and previous value.
pub struct WatchedName {
    pub current: String,
    pub previous: String,
    pub initialized: bool,
}

impl WatchedName {
    pub open spec fn after(self, value: Option<Seq<char>>) -> (Seq<char>, Seq<char>, bool) {
        match value {
            Some(v) => (v, if self.initialized { self.current@ } else { v }, true),
            None => (self.current@, self.previous@, self.initialized),
        }
    }

    /// The current name, or the empty name before the first sample.
    pub open spec fn cur(self) -> Seq<char> {
        if self.initialized { self.current@ } else { Seq::empty() }
    }

    /// The previous name, or the empty name before the first sample.
    pub open spec fn prev(self) -> Seq<char> {
        if self.initialized { self.previous@ } else { Seq::empty() }
    }

    pub fn new() -> (r: Self)
        ensures
            !r.initialized,
            r.cur() == Seq::<char>::empty(),
    {
        WatchedName { current: String::new(), previous: String::new(), initialized: false }
    }

    pub fn update(&mut self, value: Option<String>)
        ensures
            (final(self).current@, final(self).previous@, final(self).initialized) == old(
                self,
            ).after(
                match value {
                    Some(v) => Some(v@),
                    None => None,
                },
            ),
    {
        if let Some(v) = value {
            if self.initialized {
                let mut v = v;
                core::mem::swap(&mut self.current, &mut v);
                self.previous = v;
            } else {
                self.previous = v.clone();
                self.current = v;
            }
            self.initialized = true;
        }
    }

    pub fn current_name(&self) -> (r: &str)
        ensures
            r@ == self.cur(),
    {
        if self.initialized {
            self.current.as_str()
        } else {
            proof {
                reveal_strlit("");
            }
            ""
        }
    }

    pub fn previous_name(&self) -> (r: &str)
        ensures
            r@ == self.prev(),
    {
        if self.initialized {
            self.previous.as_str()
        } else {
            proof {
                reveal_strlit("");
            }
            ""
        }
    }
}

/// The bit pattern of an IEEE-754 single-precision number, as sampled from the game.
///
/// Comparisons follow IEEE-754: a NaN compares false with everything, and both zeros are equal.
#[derive(Clone, Copy, PartialEq, Eq, Structural)]
pub struct Ieee32 {
    pub bits: u32,
}

pub const SIGN_BIT: u32 = 0x8000_0000;

pub const EXPONENT_ALL_ONES: u32 = 0x7f80_0000;

/// Whether the bit pattern `b` is a NaN.
pub open spec fn bits_nan(b: u32) -> bool {
    b % SIGN_BIT > EXPONENT_ALL_ONES
}

/// A key on the integers that orders the non-NaN bit patterns as their numbers are ordered.
pub open spec fn order_key(b: u32) -> int {
    if b >= SIGN_BIT {
        -((b % SIGN_BIT) as int)
    } else {
        b as int
    }
}

/// The number of bit pattern `a` is below that of `b`.
pub open spec fn bits_lt(a: u32, b: u32) -> bool {
    !bits_nan(a) && !bits_nan(b) && order_key(a) < order_key(b)
}

/// The numbers of bit patterns `a` and `b` are equal.
pub open spec fn bits_eq(a: u32, b: u32) -> bool {
    !bits_nan(a) && !bits_nan(b) && order_key(a) == order_key(b)
}

fn key_of(b: u32) -> (r: i64)
    ensures
        r == order_key(b),
{
    if b >= SIGN_BIT {
        -((b % SIGN_BIT) as i64)
    } else {
        b as i64
    }
}

fn nan_of(b: u32) -> (r: bool)
    ensures
        r == bits_nan(b),
{
    b % SIGN_BIT > EXPONENT_ALL_ONES
}

impl Ieee32 {
    /// `self < k`, where `k` is the bit pattern of a constant.
    pub fn below(&self, k: u32) -> (r: bool)
        ensures
            r == bits_lt(self.bits, k),
    {
        !nan_of(self.bits) && !nan_of(k) && key_of(self.bits) < key_of(k)
    }

    /// `self > k`, where `k` is the bit pattern of a constant.
    pub fn above(&self, k: u32) -> (r: bool)
        ensures
            r == bits_lt(k, self.bits),
    {
        !nan_of(self.bits) && !nan_of(k) && key_of(k) < key_of(self.bits)
    }

    /// `self <= k`, where `k` is the bit pattern of a constant.
    pub fn at_most(&self, k: u32) -> (r: bool)
        ensures
            r == (bits_lt(self.bits, k) || bits_eq(self.bits, k)),
    {
        !nan_of(self.bits) && !nan_of(k) && key_of(self.bits) <= key_of(k)
    }

    /// `self == k`, where `k` is the bit pattern of a constant.
    pub fn equals(&self, k: u32) -> (r: bool)
        ensures
            r == bits_eq(self.bits, k),
    {
        !nan_of(self.bits) && !nan_of(k) && key_of(self.bits) == key_of(k)
    }

    /// `self < other`.
    pub fn less_than(&self, other: &Ieee32) -> (r: bool)
        ensures
            r == bits_lt(self.bits, other.bits),
    {
        self.below(other.bits)
    }
}

} // verus!
