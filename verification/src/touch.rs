use vstd::prelude::*;

verus! {

/// A point (x, y) on the sensor.
///
/// The native layer reports single-precision coordinates; each field here
/// holds the raw IEEE-754 bit pattern of one such value. Records must cross
/// the bridge bit-exactly — including reserved fields whose meaning is
/// undocumented — so the verified core never reinterprets a coordinate, it
/// only carries the bits. The unverified shell converts to and from the
/// native floating-point layout at the boundary.
#[derive(Debug, Clone, Copy, PartialEq, Eq, Structural)]
pub struct MTPoint {
    /// Bit pattern of the x coordinate
    pub x: u32,
    /// Bit pattern of the y coordinate
    pub y: u32,
}

/// The current position of a touch together with its velocity, used both
/// for the normalized (0..1 per axis) and the absolute coordinate space.
#[derive(Debug, Clone, Copy, PartialEq, Eq, Structural)]
pub struct MTVector {
    /// Current touch position
    pub pos: MTPoint,
    /// Velocity
    pub vel: MTPoint,
}

/// The state of an individual touch on a multitouch device.
///
/// The driver defines these states by their ordinal, 0 through 7, in
/// exactly this order; the bridge never invents or reorders states, it only
/// converts the wire ordinal to this enumeration and back, bit-exactly.
#[derive(Debug, Clone, Copy, PartialEq, Eq, Structural)]
pub enum MTTouchState {
    NotTracking,
    StartInRange,
    HoverInRange,
    MakeTouch,
    Touching,
    BreakTouch,
    LingerInRange,
    OutOfRange,
}

/// The ordinal the driver uses on the wire for each touch state.
pub open spec fn spec_touch_state_ordinal(s: MTTouchState) -> int {
    match s {
        MTTouchState::NotTracking => 0,
        MTTouchState::StartInRange => 1,
        MTTouchState::HoverInRange => 2,
        MTTouchState::MakeTouch => 3,
        MTTouchState::Touching => 4,
        MTTouchState::BreakTouch => 5,
        MTTouchState::LingerInRange => 6,
        MTTouchState::OutOfRange => 7,
    }
}

/// The touch state a wire ordinal stands for; `None` for an ordinal the
/// driver never emits.
pub open spec fn spec_touch_state_from_ordinal(n: int) -> Option<MTTouchState> {
    if n == 0 {
        Some(MTTouchState::NotTracking)
    } else if n == 1 {
        Some(MTTouchState::StartInRange)
    } else if n == 2 {
        Some(MTTouchState::HoverInRange)
    } else if n == 3 {
        Some(MTTouchState::MakeTouch)
    } else if n == 4 {
        Some(MTTouchState::Touching)
    } else if n == 5 {
        Some(MTTouchState::BreakTouch)
    } else if n == 6 {
        Some(MTTouchState::LingerInRange)
    } else if n == 7 {
        Some(MTTouchState::OutOfRange)
    } else {
        None
    }
}

/// The wire ordinal of a touch state, 0 through 7.
pub fn touch_state_ordinal(s: MTTouchState) -> (n: i32)
    ensures
        n == spec_touch_state_ordinal(s),
        0 <= n <= 7,
{
    match s {
        MTTouchState::NotTracking => 0,
        MTTouchState::StartInRange => 1,
        MTTouchState::HoverInRange => 2,
        MTTouchState::MakeTouch => 3,
        MTTouchState::Touching => 4,
        MTTouchState::BreakTouch => 5,
        MTTouchState::LingerInRange => 6,
        MTTouchState::OutOfRange => 7,
    }
}

/// The touch state for a wire ordinal; `None` when the ordinal is outside
/// 0 through 7.
pub fn touch_state_from_ordinal(n: i32) -> (s: Option<MTTouchState>)
    ensures
        s == spec_touch_state_from_ordinal(n as int),
{
    if n == 0 {
        Some(MTTouchState::NotTracking)
    } else if n == 1 {
        Some(MTTouchState::StartInRange)
    } else if n == 2 {
        Some(MTTouchState::HoverInRange)
    } else if n == 3 {
        Some(MTTouchState::MakeTouch)
    } else if n == 4 {
        Some(MTTouchState::Touching)
    } else if n == 5 {
        Some(MTTouchState::BreakTouch)
    } else if n == 6 {
        Some(MTTouchState::LingerInRange)
    } else if n == 7 {
        Some(MTTouchState::OutOfRange)
    } else {
        None
    }
}

/// Every touch state round-trips through its wire ordinal unchanged: the
/// bridge neither invents nor reorders states.
pub proof fn lemma_touch_state_ordinal_round_trip(s: MTTouchState)
    ensures
        spec_touch_state_from_ordinal(spec_touch_state_ordinal(s)) == Some(s),
{
}

/// Every wire ordinal 0 through 7 round-trips through the enumeration
/// unchanged, and no other ordinal names a state.
pub proof fn lemma_ordinal_touch_state_round_trip(n: int)
    ensures
        0 <= n <= 7 ==> (spec_touch_state_from_ordinal(n) matches Some(s)
            && spec_touch_state_ordinal(s) == n),
        !(0 <= n <= 7) ==> spec_touch_state_from_ordinal(n) is None,
{
}

/// One finger's sample for one frame, exactly as the native subsystem
/// reports it.
///
/// The layout is a binary contract with the native struct: same fields, in
/// the same order, none added, dropped or reinterpreted. Fields the driver
/// reports in floating point hold the raw IEEE-754 bit pattern (32-bit
/// fields in a `u32`, the 64-bit timestamp in a `u64`); the reserved
/// `unknown` fields have no confirmed meaning upstream and are preserved
/// opaquely.
#[derive(Debug, Clone, Copy, PartialEq, Eq, Structural)]
pub struct MTTouch {
    /// The current frame number
    pub frame: i32,
    /// Bit pattern of the double-precision event timestamp
    pub timestamp: u64,
    /// Identifier unique for the life of one continuous touch
    pub identifier: i32,
    /// The current state
    pub state: MTTouchState,
    pub finger_id: i32,
    pub hand_id: i32,
    /// The normalized position and velocity of the touch (0,0 to 1,1)
    pub normalized: MTVector,
    /// Bit pattern of the touch's total "Z" density
    pub z_total: u32,
    /// Reserved; observed always 0, preserved opaquely
    pub unknown3: i32,
    /// Bit pattern of the touch angle in radians
    pub angle: u32,
    /// Bit pattern of the ellipse-fit major axis
    pub major_axis: u32,
    /// Bit pattern of the ellipse-fit minor axis
    pub minor_axis: u32,
    /// Absolute position and velocity
    pub absolute: MTVector,
    /// Reserved; observed always 0, preserved opaquely
    pub unknown4: i32,
    /// Reserved; observed always 0, preserved opaquely
    pub unknown5: i32,
    /// Bit pattern of the touch's "Z" density
    pub z_density: u32,
}

} // verus!
