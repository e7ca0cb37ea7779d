//! Lengths in logical units and in device pixels, and the scale factor that
//! converts between the two.
//!
//! A logical length does not depend on the display; a physical length counts
//! device pixels. All lengths are integers. A conversion is always an explicit
//! call, and it says how it rounds: toward zero.

use vstd::prelude::*;

verus! {

/// Integer division that rounds toward zero, for a positive divisor.
pub open spec fn trunc_div(a: int, b: int) -> int
    recommends
        b > 0,
{
    if a >= 0 {
        a / b
    } else {
        -((-a) / b)
    }
}

/// `v`, or the nearer end of `lo..=hi` where `v` lies outside.
pub open spec fn clamp(v: int, lo: int, hi: int) -> int
    recommends
        lo <= hi,
{
    if v < lo {
        lo
    } else if v > hi {
        hi
    } else {
        v
    }
}

/// How many device pixels make one logical unit, as the ratio
/// `numer / denom`. Both parts are positive, so every scale factor can
/// be divided by.
#[derive(Clone, Copy, Debug, PartialEq, Eq)]
pub struct ScaleFactor {
    numer: u32,
    denom: u32,
}

impl ScaleFactor {
    /// The numerator of the ratio.
    pub closed spec fn numer_spec(self) -> int {
        self.numer as int
    }

    /// The denominator of the ratio.
    pub closed spec fn denom_spec(self) -> int {
        self.denom as int
    }

    /// Both parts of the ratio are positive and fit in 32 bits.
    #[verifier::type_invariant]
    pub open spec fn wf(self) -> bool {
        &&& 0 < self.numer_spec() <= u32::MAX
        &&& 0 < self.denom_spec() <= u32::MAX
    }

    /// The logical length that `physical` device pixels make, rounded toward zero.
    pub open spec fn logical_len(self, physical: int) -> int {
        trunc_div(physical * self.denom_spec(), self.numer_spec())
    }

    /// The length in device pixels that `logical` logical units make, rounded
    /// toward zero.
    pub open spec fn physical_len(self, logical: int) -> int {
        trunc_div(logical * self.numer_spec(), self.denom_spec())
    }

    /// The scale factor `numer / denom`, where both are positive.
    pub fn new(numer: u32, denom: u32) -> (scale: Option<ScaleFactor>)
        ensures
            scale is Some <==> numer > 0 && denom > 0,
            scale matches Some(s) ==> s.numer_spec() == numer && s.denom_spec() == denom,
    {
        if numer > 0 && denom > 0 {
            Some(ScaleFactor { numer, denom })
        } else {
            None
        }
    }

    /// The scale factor 1: a logical unit is one device pixel.
    pub fn identity() -> (scale: ScaleFactor)
        ensures
            scale.numer_spec() == 1,
            scale.denom_spec() == 1,
    {
        ScaleFactor { numer: 1, denom: 1 }
    }

    pub fn numer(&self) -> (n: u32)
        ensures
            n == self.numer_spec(),
            n > 0,
    {
        proof {
            use_type_invariant(self);
        }
        self.numer
    }

    pub fn denom(&self) -> (d: u32)
        ensures
            d == self.denom_spec(),
            d > 0,
    {
        proof {
            use_type_invariant(self);
        }
        self.denom
    }

    /// Converts a length that is not negative from device pixels to logical units.
    pub fn to_logical_len(&self, physical: u32) -> (logical: u64)
        ensures
            logical == self.logical_len(physical as int),
    {
        proof {
            use_type_invariant(self);
            lemma_product_fits(physical as int, self.denom as int);
        }
        (physical as u64 * self.denom as u64) / (self.numer as u64)
    }
}

/// The product of a 64-bit magnitude and a 32-bit one fits in 96 bits.
proof fn lemma_wide_product_fits(a: int, b: int)
    by (nonlinear_arith)
    requires
        0 <= a <= 0x8000_0000_0000_0000,
        0 <= b <= 0xFFFF_FFFF,
    ensures
        0 <= a * b <= 0x8000_0000_0000_0000 * 0xFFFF_FFFF,
{
}

/// The product of two 32-bit magnitudes fits in 63 bits when one of them is at most 2^31.
proof fn lemma_product_fits(a: int, b: int)
    by (nonlinear_arith)
    requires
        0 <= a <= 0xFFFF_FFFF,
        0 <= b <= 0xFFFF_FFFF,
    ensures
        0 <= a * b <= 0xFFFF_FFFE_0000_0001,
        a <= 0x8000_0000 ==> a * b <= 0x7FFF_FFFF_8000_0000,
{
}

/// A quotient by a positive divisor is no further from zero than the dividend.
proof fn lemma_quotient_bounded(a: int, b: int)
    by (nonlinear_arith)
    requires
        0 <= a,
        0 < b,
    ensures
        0 <= a / b <= a,
{
}

/// A position in logical units.
#[derive(Clone, Copy, Debug, PartialEq, Eq, Structural)]
pub struct LogicalPosition {
    pub x: i64,
    pub y: i64,
}

/// A position in device pixels.
#[derive(Clone, Copy, Debug, PartialEq, Eq, Structural)]
pub struct PhysicalPosition {
    pub x: i32,
    pub y: i32,
}

/// A size in logical units.
#[derive(Clone, Copy, Debug, PartialEq, Eq, Structural)]
pub struct LogicalSize {
    pub width: u32,
    pub height: u32,
}

/// A size in device pixels.
#[derive(Clone, Copy, Debug, PartialEq, Eq, Structural)]
pub struct PhysicalSize {
    pub width: u32,
    pub height: u32,
}

/// A position tagged with its unit.
#[derive(Clone, Copy, Debug, PartialEq, Eq, Structural)]
pub enum Position {
    Physical(PhysicalPosition),
    Logical(LogicalPosition),
}

/// A size tagged with its unit.
#[derive(Clone, Copy, Debug, PartialEq, Eq, Structural)]
pub enum Size {
    Physical(PhysicalSize),
    Logical(LogicalSize),
}

/// A rectangle: where its top left corner is, and how large it is.
#[derive(Clone, Copy, Debug, PartialEq, Eq, Structural)]
pub struct Rect {
    pub position: Position,
    pub size: Size,
}

impl LogicalPosition {
    pub fn new(x: i64, y: i64) -> (position: LogicalPosition)
        ensures
            position == (LogicalPosition { x, y }),
    {
        LogicalPosition { x, y }
    }

    /// This position in device pixels: each coordinate times the scale
    /// factor, rounded toward zero, and held to what 32 bits can hold.
    pub open spec fn physical(self, scale: ScaleFactor) -> PhysicalPosition {
        PhysicalPosition {
            x: clamp(scale.physical_len(self.x as int), i32::MIN as int, i32::MAX as int) as i32,
            y: clamp(scale.physical_len(self.y as int), i32::MIN as int, i32::MAX as int) as i32,
        }
    }

    pub fn to_physical(&self, scale: ScaleFactor) -> (position: PhysicalPosition)
        ensures
            position == self.physical(scale),
    {
        PhysicalPosition {
            x: signed_to_physical(self.x, scale),
            y: signed_to_physical(self.y, scale),
        }
    }
}

/// Converts one signed coordinate from logical units to device pixels.
fn signed_to_physical(logical: i64, scale: ScaleFactor) -> (physical: i32)
    ensures
        physical == clamp(scale.physical_len(logical as int), i32::MIN as int, i32::MAX as int),
{
    let numer: u128 = scale.numer() as u128;
    let denom: u128 = scale.denom() as u128;
    if logical >= 0 {
        let magnitude: u128 = logical as u128;
        proof {
            lemma_wide_product_fits(magnitude as int, numer as int);
            lemma_quotient_bounded(magnitude * numer, denom as int);
        }
        let wide: u128 = (magnitude * numer) / denom;
        if wide > i32::MAX as u128 {
            i32::MAX
        } else {
            wide as i32
        }
    } else {
        let magnitude: u128 = (-(logical as i128)) as u128;
        proof {
            lemma_wide_product_fits(magnitude as int, numer as int);
            lemma_quotient_bounded(magnitude * numer, denom as int);
            assert(-(logical as int) * scale.numer_spec() == -(logical as int * scale.numer_spec()))
                by (nonlinear_arith);
        }
        let wide: u128 = (magnitude * numer) / denom;
        if wide > 0x8000_0000u128 {
            i32::MIN
        } else {
            (-(wide as i64)) as i32
        }
    }
}

impl PhysicalPosition {
    pub fn new(x: i32, y: i32) -> (position: PhysicalPosition)
        ensures
            position == (PhysicalPosition { x, y }),
    {
        PhysicalPosition { x, y }
    }

    /// This position in logical units: each coordinate divided by the
    /// scale factor and rounded toward zero.
    pub open spec fn logical(self, scale: ScaleFactor) -> LogicalPosition {
        LogicalPosition {
            x: scale.logical_len(self.x as int) as i64,
            y: scale.logical_len(self.y as int) as i64,
        }
    }

    pub fn to_logical(&self, scale: ScaleFactor) -> (position: LogicalPosition)
        ensures
            position == self.logical(scale),
            position.x == scale.logical_len(self.x as int),
            position.y == scale.logical_len(self.y as int),
    {
        LogicalPosition {
            x: signed_to_logical(self.x, scale),
            y: signed_to_logical(self.y, scale),
        }
    }
}

/// Converts one signed coordinate from device pixels to logical units.
fn signed_to_logical(physical: i32, scale: ScaleFactor) -> (logical: i64)
    ensures
        logical == scale.logical_len(physical as int),
{
    proof {
        use_type_invariant(scale);
    }
    let numer: u64 = scale.numer() as u64;
    let denom: u64 = scale.denom() as u64;
    if physical >= 0 {
        let magnitude: u64 = physical as u64;
        proof {
            lemma_product_fits(magnitude as int, denom as int);
            lemma_quotient_bounded(magnitude * denom, numer as int);
        }
        ((magnitude * denom) / numer) as i64
    } else {
        let magnitude: u64 = (-(physical as i64)) as u64;
        proof {
            lemma_product_fits(magnitude as int, denom as int);
            lemma_quotient_bounded(magnitude * denom, numer as int);
            assert(-(physical as int) * scale.denom_spec() == -(physical as int * scale.denom_spec()))
                by (nonlinear_arith);
        }
        -(((magnitude * denom) / numer) as i64)
    }
}

impl LogicalSize {
    pub fn new(width: u32, height: u32) -> (size: LogicalSize)
        ensures
            size == (LogicalSize { width, height }),
    {
        LogicalSize { width, height }
    }

    /// This size in device pixels: each side times the scale factor, rounded
    /// toward zero, and held to what 32 bits can count.
    pub open spec fn physical(self, scale: ScaleFactor) -> PhysicalSize {
        PhysicalSize {
            width: clamp(scale.physical_len(self.width as int), 0, u32::MAX as int) as u32,
            height: clamp(scale.physical_len(self.height as int), 0, u32::MAX as int) as u32,
        }
    }

    pub fn to_physical(&self, scale: ScaleFactor) -> (size: PhysicalSize)
        ensures
            size == self.physical(scale),
    {
        PhysicalSize {
            width: side_to_physical(self.width, scale),
            height: side_to_physical(self.height, scale),
        }
    }
}

/// Converts one side of a size from logical units to device pixels.
fn side_to_physical(logical: u32, scale: ScaleFactor) -> (physical: u32)
    ensures
        physical == clamp(scale.physical_len(logical as int), 0, u32::MAX as int),
{
    proof {
        lemma_product_fits(logical as int, scale.numer_spec());
    }
    let wide: u64 = (logical as u64 * scale.numer() as u64) / (scale.denom() as u64);
    if wide > u32::MAX as u64 {
        u32::MAX
    } else {
        wide as u32
    }
}

impl PhysicalSize {
    pub fn new(width: u32, height: u32) -> (size: PhysicalSize)
        ensures
            size == (PhysicalSize { width, height }),
    {
        PhysicalSize { width, height }
    }

    /// This size in logical units: each side divided by the scale factor,
    /// rounded toward zero, and held to what 32 bits can count.
    pub open spec fn logical(self, scale: ScaleFactor) -> LogicalSize {
        LogicalSize {
            width: clamp(scale.logical_len(self.width as int), 0, u32::MAX as int) as u32,
            height: clamp(scale.logical_len(self.height as int), 0, u32::MAX as int) as u32,
        }
    }

    pub fn to_logical(&self, scale: ScaleFactor) -> (size: LogicalSize)
        ensures
            size == self.logical(scale),
    {
        LogicalSize {
            width: side_to_logical(self.width, scale),
            height: side_to_logical(self.height, scale),
        }
    }
}

/// Converts one side of a size from device pixels to logical units.
fn side_to_logical(physical: u32, scale: ScaleFactor) -> (logical: u32)
    ensures
        logical == clamp(scale.logical_len(physical as int), 0, u32::MAX as int),
{
    let wide: u64 = scale.to_logical_len(physical);
    if wide > u32::MAX as u64 {
        u32::MAX
    } else {
        wide as u32
    }
}

impl Position {
    /// This position in logical units; a logical position is kept as it is.
    pub open spec fn logical(self, scale: ScaleFactor) -> LogicalPosition {
        match self {
            Position::Physical(physical) => physical.logical(scale),
            Position::Logical(logical) => logical,
        }
    }

    pub fn to_logical(&self, scale: ScaleFactor) -> (position: LogicalPosition)
        ensures
            position == self.logical(scale),
    {
        match self {
            Position::Physical(physical) => physical.to_logical(scale),
            Position::Logical(logical) => *logical,
        }
    }

    /// This position in device pixels; a physical position is kept as it is.
    pub open spec fn physical(self, scale: ScaleFactor) -> PhysicalPosition {
        match self {
            Position::Physical(physical) => physical,
            Position::Logical(logical) => logical.physical(scale),
        }
    }

    pub fn to_physical(&self, scale: ScaleFactor) -> (position: PhysicalPosition)
        ensures
            position == self.physical(scale),
    {
        match self {
            Position::Physical(physical) => *physical,
            Position::Logical(logical) => logical.to_physical(scale),
        }
    }
}

impl Size {
    /// This size in logical units; a logical size is kept as it is.
    pub open spec fn logical(self, scale: ScaleFactor) -> LogicalSize {
        match self {
            Size::Physical(physical) => physical.logical(scale),
            Size::Logical(logical) => logical,
        }
    }

    pub fn to_logical(&self, scale: ScaleFactor) -> (size: LogicalSize)
        ensures
            size == self.logical(scale),
    {
        match self {
            Size::Physical(physical) => physical.to_logical(scale),
            Size::Logical(logical) => *logical,
        }
    }

    /// This size in device pixels; a physical size is kept as it is.
    pub open spec fn physical(self, scale: ScaleFactor) -> PhysicalSize {
        match self {
            Size::Physical(physical) => physical,
            Size::Logical(logical) => logical.physical(scale),
        }
    }

    pub fn to_physical(&self, scale: ScaleFactor) -> (size: PhysicalSize)
        ensures
            size == self.physical(scale),
    {
        match self {
            Size::Physical(physical) => *physical,
            Size::Logical(logical) => logical.to_physical(scale),
        }
    }
}

impl From<PhysicalPosition> for Position {
    fn from(position: PhysicalPosition) -> (tagged: Position) {
        Position::Physical(position)
    }
}

impl vstd::std_specs::convert::FromSpecImpl<PhysicalPosition> for Position {
    open spec fn obeys_from_spec() -> bool {
        true
    }

    open spec fn from_spec(position: PhysicalPosition) -> Position {
        Position::Physical(position)
    }
}

impl From<LogicalPosition> for Position {
    fn from(position: LogicalPosition) -> (tagged: Position) {
        Position::Logical(position)
    }
}

impl vstd::std_specs::convert::FromSpecImpl<LogicalPosition> for Position {
    open spec fn obeys_from_spec() -> bool {
        true
    }

    open spec fn from_spec(position: LogicalPosition) -> Position {
        Position::Logical(position)
    }
}

impl From<PhysicalSize> for Size {
    fn from(size: PhysicalSize) -> (tagged: Size) {
        Size::Physical(size)
    }
}

impl vstd::std_specs::convert::FromSpecImpl<PhysicalSize> for Size {
    open spec fn obeys_from_spec() -> bool {
        true
    }

    open spec fn from_spec(size: PhysicalSize) -> Size {
        Size::Physical(size)
    }
}

impl From<LogicalSize> for Size {
    fn from(size: LogicalSize) -> (tagged: Size) {
        Size::Logical(size)
    }
}

impl vstd::std_specs::convert::FromSpecImpl<LogicalSize> for Size {
    open spec fn obeys_from_spec() -> bool {
        true
    }

    open spec fn from_spec(size: LogicalSize) -> Size {
        Size::Logical(size)
    }
}

/// At the scale factor 1 a conversion changes no length: a logical unit is a
/// device pixel.
pub proof fn lemma_identity_scale_keeps_lengths(scale: ScaleFactor, length: int)
    requires
        scale.numer_spec() == 1,
        scale.denom_spec() == 1,
    ensures
        scale.logical_len(length) == length,
        scale.physical_len(length) == length,
{
}

/// A conversion rounds toward zero: it keeps the sign of a length and never
/// takes it further from zero than the exact quotient is.
pub proof fn lemma_conversion_rounds_toward_zero(scale: ScaleFactor, length: int)
    requires
        scale.wf(),
    ensures
        length >= 0 ==> 0 <= scale.logical_len(length) * scale.numer_spec() <= length
            * scale.denom_spec(),
        length <= 0 ==> length * scale.denom_spec() <= scale.logical_len(length)
            * scale.numer_spec() <= 0,
        scale.logical_len(-length) == -scale.logical_len(length),
{
    let n = scale.numer_spec();
    let d = scale.denom_spec();
    let a = length * d;
    assert((-length) * d == -a) by (nonlinear_arith)
        requires
            a == length * d,
    ;
    assert(length >= 0 ==> a >= 0) by (nonlinear_arith)
        requires
            d > 0,
            a == length * d,
    ;
    assert(length <= 0 ==> a <= 0) by (nonlinear_arith)
        requires
            d > 0,
            a == length * d,
    ;
    lemma_floor_quotient(a, n);
    lemma_floor_quotient(-a, n);
    lemma_floor_quotient(0, n);
    let q = (-a) / n;
    assert((-q) * n == -(q * n)) by (nonlinear_arith);
    assert(0int / n == 0) by (nonlinear_arith)
        requires
            n > 0,
    ;
}

/// The quotient of a dividend that is not negative, times the divisor, is at
/// most the dividend.
proof fn lemma_floor_quotient(a: int, b: int)
    by (nonlinear_arith)
    requires
        b > 0,
    ensures
        a >= 0 ==> 0 <= (a / b) * b <= a,
{
}

/// A length that goes to device pixels and back does not grow.
pub proof fn lemma_round_trip_does_not_grow(scale: ScaleFactor, length: int)
    requires
        scale.wf(),
        length >= 0,
    ensures
        0 <= scale.logical_len(scale.physical_len(length)) <= length,
{
    let n = scale.numer_spec();
    let d = scale.denom_spec();
    let p = scale.physical_len(length);
    assert(length * n >= 0) by (nonlinear_arith)
        requires
            length >= 0,
            n > 0,
    ;
    lemma_floor_quotient(length * n, d);
    assert(p >= 0 && p * d <= length * n);
    lemma_floor_quotient(p * d, n);
    let back = scale.logical_len(p);
    assert(p * d >= 0) by (nonlinear_arith)
        requires
            p >= 0,
            d > 0,
    ;
    assert(back >= 0 && back * n <= p * d);
    assert(back <= length) by (nonlinear_arith)
        requires
            back * n <= length * n,
            n > 0,
    ;
}

} // verus!
