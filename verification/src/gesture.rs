//! The closed set of recognized multi-touch gestures and the resolution of
//! the wire-level gesture code into it.

use vstd::prelude::*;

verus! {

/// A recognized multi-touch gesture: a swipe with three or four touch
/// points in one of four directions, or a pinch with two, three or four
/// touch points moving in or out.
#[derive(Clone, Copy, Debug, PartialEq, Eq, Structural)]
pub enum Gesture {
    ThreeSwipeUp,
    ThreeSwipeDown,
    ThreeSwipeLeft,
    ThreeSwipeRight,
    FourSwipeUp,
    FourSwipeDown,
    FourSwipeLeft,
    FourSwipeRight,
    TwoPinchIn,
    TwoPinchOut,
    ThreePinchIn,
    ThreePinchOut,
    FourPinchIn,
    FourPinchOut,
}

/// The number of distinct gesture codes the external gesture source may send.
pub const GESTURE_CODE_COUNT: u8 = 14;

/// The gesture a wire-level code stands for, or `None` when the code lies
/// outside the defined set.
pub open spec fn gesture_of_code(code: u8) -> Option<Gesture> {
    if code == 0 {
        Some(Gesture::ThreeSwipeUp)
    } else if code == 1 {
        Some(Gesture::ThreeSwipeDown)
    } else if code == 2 {
        Some(Gesture::ThreeSwipeLeft)
    } else if code == 3 {
        Some(Gesture::ThreeSwipeRight)
    } else if code == 4 {
        Some(Gesture::FourSwipeUp)
    } else if code == 5 {
        Some(Gesture::FourSwipeDown)
    } else if code == 6 {
        Some(Gesture::FourSwipeLeft)
    } else if code == 7 {
        Some(Gesture::FourSwipeRight)
    } else if code == 8 {
        Some(Gesture::TwoPinchIn)
    } else if code == 9 {
        Some(Gesture::TwoPinchOut)
    } else if code == 10 {
        Some(Gesture::ThreePinchIn)
    } else if code == 11 {
        Some(Gesture::ThreePinchOut)
    } else if code == 12 {
        Some(Gesture::FourPinchIn)
    } else if code == 13 {
        Some(Gesture::FourPinchOut)
    } else {
        None
    }
}

impl Gesture {
    /// Resolves a wire-level gesture code; exactly the codes below
    /// `GESTURE_CODE_COUNT` are defined.
    pub fn from_code(code: u8) -> (r: Option<Gesture>)
        ensures
            r == gesture_of_code(code),
            r is Some <==> code < GESTURE_CODE_COUNT,
    {
        match code {
            0 => Some(Gesture::ThreeSwipeUp),
            1 => Some(Gesture::ThreeSwipeDown),
            2 => Some(Gesture::ThreeSwipeLeft),
            3 => Some(Gesture::ThreeSwipeRight),
            4 => Some(Gesture::FourSwipeUp),
            5 => Some(Gesture::FourSwipeDown),
            6 => Some(Gesture::FourSwipeLeft),
            7 => Some(Gesture::FourSwipeRight),
            8 => Some(Gesture::TwoPinchIn),
            9 => Some(Gesture::TwoPinchOut),
            10 => Some(Gesture::ThreePinchIn),
            11 => Some(Gesture::ThreePinchOut),
            12 => Some(Gesture::FourPinchIn),
            13 => Some(Gesture::FourPinchOut),
            _ => None,
        }
    }
}

} // verus!
