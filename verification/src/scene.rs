//! The demo's scene graph: a fixed camera, the one rotatable cube, and a
//! fixed point light, held directly as plain records.
//!
//! The fixed offsets of the scene are in tenths of a world unit so they
//! are exact integers; the cube's orientation about its vertical axis is
//! kept in microradians.

use vstd::prelude::*;
use crate::speed::Speed;
use crate::speed::fits_i128;

verus! {

/// A position in world space, in tenths of a world unit.
#[derive(Clone, Copy, Debug, PartialEq, Eq, Structural)]
pub struct Position {
    pub x_tenths: i32,
    pub y_tenths: i32,
    pub z_tenths: i32,
}

/// An sRGB surface colour, each channel in tenths of full intensity.
#[derive(Clone, Copy, Debug, PartialEq, Eq, Structural)]
pub struct SurfaceColor {
    pub red_tenths: u8,
    pub green_tenths: u8,
    pub blue_tenths: u8,
}

/// The cube's surface material: a fixed colour, not metallic.
#[derive(Clone, Copy, Debug, PartialEq, Eq, Structural)]
pub struct Material {
    pub base_color: SurfaceColor,
    pub metallic: bool,
}

/// The camera: a fixed position, looking at the world origin.
#[derive(Clone, Copy, Debug, PartialEq, Eq, Structural)]
pub struct Camera {
    pub position: Position,
}

/// The one rotatable cube: default cube geometry, a fixed material, and
/// an orientation about the vertical axis in microradians.
#[derive(Clone, Copy, Debug, PartialEq, Eq, Structural)]
pub struct Cube {
    pub material: Material,
    pub yaw_microradians: i128,
}

/// The point light: a fixed intensity, shadow casting on, a fixed position.
#[derive(Clone, Copy, Debug, PartialEq, Eq, Structural)]
pub struct Light {
    pub intensity: u32,
    pub shadows_enabled: bool,
    pub position: Position,
}

/// The whole scene: exactly one camera, one cube and one light.
#[derive(Clone, Copy, Debug, PartialEq, Eq, Structural)]
pub struct Scene {
    pub camera: Camera,
    pub cube: Cube,
    pub light: Light,
}

/// The camera the bootstrap creates: at offset (-2.0, 2.5, 5.0), looking
/// at the origin.
pub open spec fn initial_camera() -> Camera {
    Camera { position: Position { x_tenths: -20i32, y_tenths: 25, z_tenths: 50 } }
}

/// The cube the bootstrap creates: colour (0.8, 0.7, 0.6), not metallic,
/// unrotated.
pub open spec fn initial_cube() -> Cube {
    Cube {
        material: Material {
            base_color: SurfaceColor { red_tenths: 8, green_tenths: 7, blue_tenths: 6 },
            metallic: false,
        },
        yaw_microradians: 0,
    }
}

/// The light the bootstrap creates: intensity 500000, casting shadows,
/// at offset (4.0, 8.0, 4.0).
pub open spec fn initial_light() -> Light {
    Light {
        intensity: 500000,
        shadows_enabled: true,
        position: Position { x_tenths: 40, y_tenths: 80, z_tenths: 40 },
    }
}

/// The scene as the bootstrap leaves it.
pub open spec fn initial_scene() -> Scene {
    Scene { camera: initial_camera(), cube: initial_cube(), light: initial_light() }
}

/// Scene bootstrap, camera part: creates the fixed camera of the loading
/// screen. Runs once, before any per-frame logic.
pub fn setup_loading_camera() -> (c: Camera)
    ensures
        c == initial_camera(),
{
    Camera { position: Position { x_tenths: -20, y_tenths: 25, z_tenths: 50 } }
}

/// Scene bootstrap, scene part: creates the cube and the light. Runs
/// once, before any per-frame logic; creation cannot fail.
pub fn setup_game_scene() -> (r: (Cube, Light))
    ensures
        r.0 == initial_cube(),
        r.1 == initial_light(),
{
    let cube = Cube {
        material: Material {
            base_color: SurfaceColor { red_tenths: 8, green_tenths: 7, blue_tenths: 6 },
            metallic: false,
        },
        yaw_microradians: 0,
    };
    let light = Light {
        intensity: 500000,
        shadows_enabled: true,
        position: Position { x_tenths: 40, y_tenths: 80, z_tenths: 40 },
    };
    (cube, light)
}

/// The whole one-time bootstrap: camera, cube and light together.
pub fn bootstrap_scene() -> (s: Scene)
    ensures
        s == initial_scene(),
{
    let camera = setup_loading_camera();
    let (cube, light) = setup_game_scene();
    Scene { camera, cube, light }
}

/// The magnitude of an integer.
pub open spec fn abs_int(x: int) -> int {
    if x >= 0 {
        x
    } else {
        -x
    }
}

/// How far one frame turns the cube: a speed of `num / den` radians per
/// second over `delta_micros` microseconds is `num * delta_micros / den`
/// microradians, rounded toward zero.
pub open spec fn yaw_increment(num: int, den: int, delta_micros: int) -> int {
    if num >= 0 {
        (num * delta_micros) / den
    } else {
        -((-num * delta_micros) / den)
    }
}

impl Cube {
    /// Rotate the cube about its vertical axis by `speed * delta` this
    /// frame: the orientation advances by the speed's exact value times
    /// the elapsed microseconds, rounded toward zero to a microradian.
    pub fn rotate_y(&mut self, speed: &Speed, delta_micros: u32)
        requires
            speed.wf(),
            speed.num > i128::MIN,
            abs_int(speed.num as int) * delta_micros <= u128::MAX,
            abs_int(speed.num as int) * delta_micros / (speed.den as int) <= i128::MAX,
            fits_i128(
                old(self).yaw_microradians + yaw_increment(
                    speed.num as int,
                    speed.den as int,
                    delta_micros as int,
                ),
            ),
        ensures
            final(self).yaw_microradians == old(self).yaw_microradians + yaw_increment(
                speed.num as int,
                speed.den as int,
                delta_micros as int,
            ),
            final(self).material == old(self).material,
    {
        let negative = speed.num < 0;
        let magnitude: u128 = if speed.num >= 0 {
            speed.num as u128
        } else {
            (-speed.num) as u128
        };
        let scaled: u128 = magnitude * (delta_micros as u128);
        let increment: u128 = scaled / speed.den;
        proof {
            assert(magnitude == abs_int(speed.num as int));
            assert(increment == abs_int(speed.num as int) * (delta_micros as int) / (
            speed.den as int));
            assert(increment <= i128::MAX as u128);
            if speed.num >= 0 {
                assert(yaw_increment(speed.num as int, speed.den as int, delta_micros as int)
                    == increment as int);
            } else {
                assert(yaw_increment(speed.num as int, speed.den as int, delta_micros as int)
                    == -(increment as int));
            }
        }
        if negative {
            self.yaw_microradians = self.yaw_microradians - (increment as i128);
        } else {
            self.yaw_microradians = self.yaw_microradians + (increment as i128);
        }
    }
}

} // verus!
