//! The published screen size and the correction that consumers apply with it.

use bevy_math::Vec2;
use vstd::prelude::*;

verus! {

/// `glam`'s two-dimensional vector of single-precision numbers, as Bevy
/// exports it. Opaque here: it is carried through, never looked into.
#[verifier::external_type_specification]
#[verifier::external_body]
pub struct ExVec2(Vec2);

/// Whether `result` is a vector that `glam` may give for
/// `numerator / denominator`, the quotients of the `x` and of the `y`
/// components. Where a quotient is not a number, its sign and payload are
/// open, so the operands need not fix the result.
pub uninterp spec fn divides_to(numerator: Vec2, denominator: Vec2, result: Vec2) -> bool;

/// Whether `result` is a vector that `glam` may give for `left * right`, the
/// products of the `x` and of the `y` components. Where a product is not a
/// number, its sign and payload are open, so the operands need not fix the
/// result.
pub uninterp spec fn multiplies_to(left: Vec2, right: Vec2, result: Vec2) -> bool;

/// Calls `glam`'s `Div<Vec2> for Vec2`, which divides component by component
/// and does not panic, whatever the operands. The contract says that the
/// result is a quotient of the operands and claims nothing else of it.
#[verifier::external_body]
fn divide(numerator: Vec2, denominator: Vec2) -> (result: Vec2)
    ensures
        divides_to(numerator, denominator, result),
{
    numerator / denominator
}

/// Calls `glam`'s `Mul<Vec2> for Vec2`, which multiplies component by
/// component and does not panic, whatever the operands. The contract says
/// that the result is a product of the operands and claims nothing else of
/// it.
#[verifier::external_body]
fn multiply(left: Vec2, right: Vec2) -> (result: Vec2)
    ensures
        multiplies_to(left, right, result),
{
    left * right
}

/// Actual screen size from UIKit's `UIScreen`, in points.
///
/// `size` is `None` where no correction is needed or available: touch
/// positions are then used as the window reports them. Where it is `Some(s)`,
/// `s` is the authoritative size of the screen, and every reported position
/// is rescaled by the size of the viewport over `s`.
pub struct ScreenFixedSize {
    pub size: Option<Vec2>,
}

impl ScreenFixedSize {
    /// Whether `fixed` is a corrected position of a touch that was reported
    /// at `position` in a viewport of size `viewport`: the position itself
    /// where there is no size, and else a product, with the viewport, of a
    /// quotient of the position and the size.
    pub open spec fn fixes_to(self, position: Vec2, viewport: Vec2, fixed: Vec2) -> bool {
        match self.size {
            None => fixed == position,
            Some(screen) => exists|scaled: Vec2|
                divides_to(position, screen, scaled) && multiplies_to(scaled, viewport, fixed),
        }
    }

    /// Corrects a touch position: `(position / size) * viewport`, component by
    /// component, and `position` itself where there is no size to correct by.
    pub fn fix(&self, position: Vec2, viewport: Vec2) -> (fixed: Vec2)
        ensures
            self.fixes_to(position, viewport, fixed),
            self.size is None ==> fixed == position,
    {
        match self.size {
            None => position,
            Some(screen) => {
                let scaled = divide(position, screen);
                multiply(scaled, viewport)
            },
        }
    }
}

} // verus!
