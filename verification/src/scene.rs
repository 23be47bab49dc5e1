//! The scene that the simulation starts from.

use crate::wire::Sphere;
use vstd::prelude::*;

verus! {

/// Bit pattern of 0.0.
pub const ZERO: u32 = 0x0000_0000;

/// Bit pattern of 0.1.
pub const TENTH: u32 = 0x3DCC_CCCD;

/// Bit pattern of 0.3.
pub const THREE_TENTHS: u32 = 0x3E99_999A;

/// Bit pattern of 0.5.
pub const HALF: u32 = 0x3F00_0000;

/// Bit pattern of 1.0.
pub const ONE: u32 = 0x3F80_0000;

/// Bit pattern of 2.0.
pub const TWO: u32 = 0x4000_0000;

/// Bit pattern of 6.0.
pub const SIX: u32 = 0x40C0_0000;

/// Bit pattern of 8.0.
pub const EIGHT: u32 = 0x4100_0000;

/// Bit pattern of -1.0.
pub const MINUS_ONE: u32 = 0xBF80_0000;

/// Bit pattern of -2.0.
pub const MINUS_TWO: u32 = 0xC000_0000;

/// The three spheres of the initial scene: a unit sphere straight ahead that
/// drifts along x, a smaller one up and to the right that rises, and the
/// smallest down and to the left that recedes slowly.
pub open spec fn initial_spheres() -> Seq<Sphere> {
    seq![
        Sphere { pos: [ZERO, ZERO, SIX], r: ONE, vel: [ONE, ZERO, ZERO, ZERO] },
        Sphere { pos: [TWO, ONE, EIGHT], r: HALF, vel: [ZERO, ONE, ZERO, ZERO] },
        Sphere {
            pos: [MINUS_TWO, MINUS_ONE, EIGHT],
            r: THREE_TENTHS,
            vel: [ZERO, ZERO, TENTH, ZERO],
        },
    ]
}

/// The initial scene.
pub fn init_spheres() -> (spheres: Vec<Sphere>)
    ensures
        spheres@ == initial_spheres(),
{
    let mut spheres: Vec<Sphere> = Vec::new();
    spheres.push(Sphere { pos: [ZERO, ZERO, SIX], r: ONE, vel: [ONE, ZERO, ZERO, ZERO] });
    spheres.push(Sphere { pos: [TWO, ONE, EIGHT], r: HALF, vel: [ZERO, ONE, ZERO, ZERO] });
    spheres.push(
        Sphere {
            pos: [MINUS_TWO, MINUS_ONE, EIGHT],
            r: THREE_TENTHS,
            vel: [ZERO, ZERO, TENTH, ZERO],
        },
    );
    spheres
}

} // verus!
