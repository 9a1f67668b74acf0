//! Rays of the ray-marched effects. The vector arithmetic of marching is done
//! on `glam` vectors by the shader code; here stand the ray and the outcome of
//! a march.
use vstd::prelude::*;
use glam::{UVec2, UVec3, Vec2, Vec3};

verus! {

/// `glam::Vec3`, a 3D vector; its components are not read here.
#[verifier::external_type_specification]
#[verifier::external_body]
pub struct ExVec3(glam::Vec3);

/// `glam::Vec2`, a 2D vector; its components are not read here.
#[verifier::external_type_specification]
#[verifier::external_body]
pub struct ExVec2(glam::Vec2);

/// The 2D vector `(x, y)` of two whole numbers (`UVec2::as_vec2`).
/// Trusted; no contract: the float components are not described.
#[verifier::external_body]
fn vec2_from_u32s(x: u32, y: u32) -> Vec2 {
    UVec2::new(x, y).as_vec2()
}

/// The 3D vector `(n, n, n)` of a whole number (`UVec3::as_vec3`).
/// Trusted; no contract: the float components are not described.
#[verifier::external_body]
fn vec3_from_u32(n: u32) -> Vec3 {
    UVec3::splat(n).as_vec3()
}

/// The zero vector (`Vec3::ZERO`). Trusted; no contract.
#[verifier::external_body]
fn vec3_zero() -> Vec3 {
    Vec3::ZERO
}

/// Component-wise sum of 2D vectors (`<Vec2 as Add>::add`). Trusted; no contract.
#[verifier::external_body]
fn vec2_add(a: Vec2, b: Vec2) -> Vec2 {
    a + b
}

/// Component-wise difference of 2D vectors (`<Vec2 as Sub>::sub`). Trusted; no contract.
#[verifier::external_body]
fn vec2_sub(a: Vec2, b: Vec2) -> Vec2 {
    a - b
}

/// Component-wise product of 2D vectors (`<Vec2 as Mul>::mul`). Trusted; no contract.
#[verifier::external_body]
fn vec2_mul(a: Vec2, b: Vec2) -> Vec2 {
    a * b
}

/// Component-wise quotient of 2D vectors (`<Vec2 as Div>::div`). Trusted; no contract.
#[verifier::external_body]
fn vec2_div(a: Vec2, b: Vec2) -> Vec2 {
    a / b
}

/// Component-wise sum of 3D vectors (`<Vec3 as Add>::add`). Trusted; no contract.
#[verifier::external_body]
fn vec3_add(a: Vec3, b: Vec3) -> Vec3 {
    a + b
}

/// Component-wise quotient of 3D vectors (`<Vec3 as Div>::div`). Trusted; no contract.
#[verifier::external_body]
fn vec3_div(a: Vec3, b: Vec3) -> Vec3 {
    a / b
}

/// A ray: where it starts and the direction it goes.
#[derive(Clone, Copy)]
pub struct Ray {
    pub ori: Vec3,
    pub dir: Vec3,
}

/// Whether a marched ray hit a surface before it left the scene.
#[derive(Debug, Clone, Copy, PartialEq, Eq, Structural)]
pub enum MarchResult {
    Hit,
    Miss,
}

impl Ray {
    /// The ray from `ori` in the direction `dir`.
    pub fn new(ori: Vec3, dir: Vec3) -> (r: Self)
        ensures
            r.ori == ori,
            r.dir == dir,
    {
        Ray { ori, dir }
    }
}


/// Multisamples `f` to antialias the image: `f` is sampled on an `aa` by `aa`
/// grid of points around `uv`, the point of cell `(i, j)` being offset by
/// `(k / aa - 1/2) * 12/10000` (that is `0.0012`) in each axis, row by row, and the
/// samples are averaged. All vector arithmetic is `glam`'s; what the average is
/// is not described here.
pub fn antialiase(aa: u32, uv: Vec2, f: impl Fn(Vec2) -> Vec3) -> Vec3
    requires
        aa * aa <= u32::MAX,
        forall|p: Vec2| f.requires((p,)),
{
    let half = vec2_div(vec2_from_u32s(1, 1), vec2_from_u32s(2, 2));
    let spread = vec2_div(vec2_from_u32s(12, 12), vec2_from_u32s(10000, 10000));
    let grid = vec2_from_u32s(aa, aa);
    let mut color = vec3_zero();
    for off_x in 0..aa
        invariant
            forall|p: Vec2| f.requires((p,)),
    {
        for off_y in 0..aa
            invariant
                forall|p: Vec2| f.requires((p,)),
        {
            let cell = vec2_from_u32s(off_x, off_y);
            let offset = vec2_mul(vec2_sub(vec2_div(cell, grid), half), spread);
            color = vec3_add(color, f(vec2_add(uv, offset)));
        }
    }
    vec3_div(color, vec3_from_u32(aa * aa))
}

} // verus!
