//! The fixed contents of the scene: camera, light, colours.
//!
//! Quantities that are not whole numbers are kept in hundredths, so that
//! every value here is exact.

use crate::mesh::{
    create_mesh, cube_indices, cube_positions, mesh_indices, mesh_positions, Position,
};
use rend3::types::Mesh;
use vstd::prelude::*;

verus! {

/// The number of hundredths in one unit.
pub const UNIT: u8 = 100;

/// Which way a coordinate system turns.
#[derive(Clone, Copy, Debug, PartialEq, Eq, Structural)]
pub enum Handedness {
    Left,
    Right,
}

/// A colour whose channels are given in hundredths of full intensity.
#[derive(Clone, Copy, Debug, PartialEq, Eq, Structural)]
pub struct Color {
    pub red: u8,
    pub green: u8,
    pub blue: u8,
    pub alpha: u8,
}

/// A rotation about the x, y and z axes, applied in that order; the angles
/// are in hundredths of a radian.
#[derive(Clone, Copy, Debug, PartialEq, Eq, Structural)]
pub struct Rotation {
    pub x: i16,
    pub y: i16,
    pub z: i16,
}

/// A perspective camera: where it stands and how it is turned.
#[derive(Clone, Copy, Debug, PartialEq, Eq, Structural)]
pub struct Camera {
    /// Vertical field of view, in degrees.
    pub vfov_degrees: u16,
    /// Distance of the near plane, in hundredths.
    pub near: u16,
    /// Position of the eye.
    pub eye: Position,
    /// How the view is turned.
    pub rotation: Rotation,
}

/// A sun-like light.
#[derive(Clone, Copy, Debug, PartialEq, Eq, Structural)]
pub struct SunLight {
    pub color: Color,
    /// Constant multiplier of the light.
    pub intensity: u16,
    /// Direction of the light; the engine normalises it.
    pub direction: Position,
    /// Distance from the camera up to which shadows are computed.
    pub distance: u16,
}

/// What is registered with the engine for one cube.
pub struct Cube {
    pub mesh: Mesh,
    /// Albedo of the material; its other channels are the engine's defaults.
    pub albedo: Color,
    /// Transform of the object, row by row.
    pub transform: [[i8; 4]; 4],
}

impl Color {
    /// No channel exceeds full intensity.
    pub open spec fn valid(self) -> bool {
        self.red <= UNIT && self.green <= UNIT && self.blue <= UNIT && self.alpha <= UNIT
    }
}

impl SunLight {
    /// The squared length of the direction.
    pub open spec fn direction_norm_squared(self) -> int {
        crate::mesh::dot(self.direction, self.direction)
    }
}

pub open spec fn scene_camera() -> Camera {
    Camera {
        vfov_degrees: 60,
        near: 10,
        eye: crate::mesh::at(3, 3, -5),
        rotation: Rotation { x: (-55) as i16, y: 50, z: 0 },
    }
}

pub open spec fn scene_light() -> SunLight {
    SunLight {
        color: Color { red: 100, green: 100, blue: 100, alpha: 100 },
        intensity: 10,
        direction: crate::mesh::at(-1, -4, 2),
        distance: 400,
    }
}

/// The albedo of every cube.
pub open spec fn teal() -> Color {
    Color { red: 0, green: 50, blue: 50, alpha: 100 }
}

/// The tint that the off-screen target is cleared to.
pub open spec fn dark_tint() -> Color {
    Color { red: 10, green: 5, blue: 10, alpha: 100 }
}

/// The colour that the screen is cleared to.
pub open spec fn black() -> Color {
    Color { red: 0, green: 0, blue: 0, alpha: 100 }
}

/// No ambient light.
pub open spec fn no_light() -> Color {
    Color { red: 0, green: 0, blue: 0, alpha: 0 }
}

/// The entry in row `row` and column `column` of the identity matrix.
pub open spec fn identity(row: int, column: int) -> int {
    if row == column {
        1
    } else {
        0
    }
}

/// The scene is left-handed: x to the right, y up, z into the screen.
pub fn handedness() -> (handedness: Handedness)
    ensures
        handedness == Handedness::Left,
{
    Handedness::Left
}

/// The transform of every cube: the identity, so that each cube stands at
/// the origin.
pub fn cube_transform() -> (matrix: [[i8; 4]; 4])
    ensures
        forall|row: int, column: int|
            0 <= row < 4 && 0 <= column < 4 ==> matrix[row][column] == identity(row, column),
{
    [[1, 0, 0, 0], [0, 1, 0, 0], [0, 0, 1, 0], [0, 0, 0, 1]]
}

/// One cube: the unit box as a mesh, the teal material, at the origin.
/// Every cube is the same.
pub fn cube() -> (cube: Cube)
    ensures
        mesh_positions(cube.mesh) == cube_positions(),
        mesh_indices(cube.mesh) == cube_indices(),
        cube.albedo == teal(),
        forall|row: int, column: int|
            0 <= row < 4 && 0 <= column < 4 ==> cube.transform[row][column] == identity(
                row,
                column,
            ),
{
    Cube { mesh: create_mesh(), albedo: cube_albedo(), transform: cube_transform() }
}

/// The camera of the scene: 60 degrees of vertical field of view, the near
/// plane at 0.1, the eye at (3, 3, -5), turned by -0.55 about x and 0.5
/// about y.
pub fn camera() -> (camera: Camera)
    ensures
        camera == scene_camera(),
{
    Camera {
        vfov_degrees: 60,
        near: 10,
        eye: Position { x: 3, y: 3, z: -5 },
        rotation: Rotation { x: -55, y: 50, z: 0 },
    }
}

/// The one light of the scene: white, of intensity 10, shining along
/// (-1, -4, 2), with shadows up to a distance of 400. Its direction is not
/// the zero vector, so the engine can normalise it.
pub fn directional_light() -> (light: SunLight)
    ensures
        light == scene_light(),
        light.color.valid(),
        light.direction_norm_squared() == 21,
{
    let direction = Position { x: -1, y: -4, z: 2 };
    assert(crate::mesh::dot(direction, direction) == 21) by (nonlinear_arith)
        requires
            direction.x == -1,
            direction.y == -4,
            direction.z == 2,
    ;
    SunLight {
        color: Color { red: 100, green: 100, blue: 100, alpha: 100 },
        intensity: 10,
        direction,
        distance: 400,
    }
}

/// The albedo of the cubes' material: (0, 0.5, 0.5, 1).
pub fn cube_albedo() -> (color: Color)
    ensures
        color == teal(),
        color.valid(),
{
    Color { red: 0, green: 50, blue: 50, alpha: 100 }
}

/// The colour behind the scene: (0.10, 0.05, 0.10, 1).
pub fn clear_color() -> (color: Color)
    ensures
        color == dark_tint(),
        color.valid(),
{
    Color { red: 10, green: 5, blue: 10, alpha: 100 }
}

/// The colour behind the GUI on the screen: opaque black.
pub fn screen_clear_color() -> (color: Color)
    ensures
        color == black(),
        color.valid(),
{
    Color { red: 0, green: 0, blue: 0, alpha: 100 }
}

/// The ambient light of the scene: none.
pub fn ambient() -> (color: Color)
    ensures
        color == no_light(),
{
    Color { red: 0, green: 0, blue: 0, alpha: 0 }
}

} // verus!
