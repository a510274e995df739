use vstd::prelude::*;

verus! {

/// A double-precision number, held by its bit pattern. The library carries such
/// numbers from the caller to the platform and computes nothing with them.
#[derive(Debug, Clone, Copy, PartialEq, Eq, Structural)]
pub struct Real {
    pub bits: u64,
}

/// A place on the screen.
#[derive(Debug, Clone, Copy, PartialEq, Eq, Structural)]
pub enum Position {
    Physical { x: i32, y: i32 },
    Logical { x: Real, y: Real },
}

/// An extent on the screen.
#[derive(Debug, Clone, Copy, PartialEq, Eq, Structural)]
pub enum Size {
    Physical { width: u32, height: u32 },
    Logical { width: Real, height: Real },
}

/// Where a webview lies.
#[derive(Debug, Clone, Copy, PartialEq, Eq, Structural)]
pub struct Rect {
    pub position: Position,
    pub size: Size,
}

/// The bit pattern of zero.
pub open spec fn zero() -> Real {
    Real { bits: 0 }
}

/// The empty rectangle at the origin, in logical units.
pub open spec fn empty_rect() -> Rect {
    Rect {
        position: Position::Logical { x: zero(), y: zero() },
        size: Size::Logical { width: zero(), height: zero() },
    }
}

impl Default for Rect {
    fn default() -> (rect: Rect)
        ensures
            rect == empty_rect(),
    {
        let nought = Real { bits: 0 };
        Rect {
            position: Position::Logical { x: nought, y: nought },
            size: Size::Logical { width: nought, height: nought },
        }
    }
}

} // verus!
