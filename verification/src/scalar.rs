//! Scalars, points, colors and transforms.
//!
//! Coordinates are IEEE-754 binary32 bit patterns stored in `u32` fields.
//! The library never interprets the patterns itself: every floating-point
//! operation is delegated to `glam` (or to `f32` methods reached through
//! `glam` values) behind the trusted wrappers below, and the results are
//! tracked symbolically through uninterpreted spec functions such as
//! [`add_bits`] or [`mat_apply`].

use vstd::prelude::*;

verus! {

/// Bit pattern of `0.0f32`.
pub const ZERO_BITS: u32 = 0x0000_0000;

/// Bit pattern of `1.0f32`.
pub const ONE_BITS: u32 = 0x3F80_0000;

/// Bit pattern of `2.0f32`.
pub const TWO_BITS: u32 = 0x4000_0000;

/// Bit pattern of `core::f32::consts::PI`.
pub const PI_BITS: u32 = 0x4049_0FDB;

/// The sign bit of a binary32 pattern.
pub const SIGN_MASK: u32 = 0x8000_0000;

/// IEEE-754 negation is exactly a flip of the sign bit, so it needs no
/// trusted wrapper.
pub open spec fn neg_bits(a: u32) -> u32 {
    a ^ SIGN_MASK
}

pub fn fneg(a: u32) -> (r: u32)
    ensures
        r == neg_bits(a),
{
    a ^ SIGN_MASK
}

pub uninterp spec fn add_bits(a: u32, b: u32) -> u32;

/// Relies on `f32` addition (IEEE-754 binary32, round to nearest even),
/// reached through a `glam::Vec2`: the sum's bit pattern is a function of
/// the two operand bit patterns alone.
#[verifier::external_body]
pub fn fadd(a: u32, b: u32) -> (r: u32)
    ensures
        r == add_bits(a, b),
{
    let v: glam::Vec2 = bytemuck::cast([a, b]);
    (v.x + v.y).to_bits()
}

pub uninterp spec fn sub_bits(a: u32, b: u32) -> u32;

/// Relies on `f32` subtraction (IEEE-754 binary32), reached through a
/// `glam::Vec2`; deterministic in the operand bit patterns.
#[verifier::external_body]
pub fn fsub(a: u32, b: u32) -> (r: u32)
    ensures
        r == sub_bits(a, b),
{
    let v: glam::Vec2 = bytemuck::cast([a, b]);
    (v.x - v.y).to_bits()
}

pub uninterp spec fn mul_bits(a: u32, b: u32) -> u32;

/// Relies on `f32` multiplication (IEEE-754 binary32), reached through a
/// `glam::Vec2`; deterministic in the operand bit patterns.
#[verifier::external_body]
pub fn fmul(a: u32, b: u32) -> (r: u32)
    ensures
        r == mul_bits(a, b),
{
    let v: glam::Vec2 = bytemuck::cast([a, b]);
    (v.x * v.y).to_bits()
}

pub uninterp spec fn div_bits(a: u32, b: u32) -> u32;

/// Relies on `f32` division (IEEE-754 binary32), reached through a
/// `glam::Vec2`; deterministic in the operand bit patterns, and total
/// (division by zero yields an infinity, not a fault).
#[verifier::external_body]
pub fn fdiv(a: u32, b: u32) -> (r: u32)
    ensures
        r == div_bits(a, b),
{
    let v: glam::Vec2 = bytemuck::cast([a, b]);
    (v.x / v.y).to_bits()
}

pub uninterp spec fn itof_bits(u: u32) -> u32;

/// Relies on the `u32`-to-`f32` conversion (IEEE-754 round to nearest),
/// reached through `glam::UVec2::as_vec2`; deterministic in the integer
/// argument.
#[verifier::external_body]
pub fn itof(u: u32) -> (r: u32)
    ensures
        r == itof_bits(u),
{
    glam::UVec2::new(u, u).as_vec2().x.to_bits()
}

/// Relies on `f32::cos`. No value is claimed of the result: Rust leaves
/// the precision of the platform trigonometric routines unspecified.
#[verifier::external_body]
pub fn fcos(x: u32) -> u32 {
    let v: glam::Vec2 = bytemuck::cast([x, x]);
    v.x.cos().to_bits()
}

/// Relies on `f32::sin`. No value is claimed of the result: Rust leaves
/// the precision of the platform trigonometric routines unspecified.
#[verifier::external_body]
pub fn fsin(x: u32) -> u32 {
    let v: glam::Vec2 = bytemuck::cast([x, x]);
    v.x.sin().to_bits()
}

/// A position, as three binary32 bit patterns.
#[derive(Debug, Clone, Copy, PartialEq, Eq, Structural)]
pub struct Point3 {
    pub x: u32,
    pub y: u32,
    pub z: u32,
}

impl Point3 {
    /// The origin.
    pub open spec fn zero_spec() -> Point3 {
        Point3 { x: ZERO_BITS, y: ZERO_BITS, z: ZERO_BITS }
    }

    pub fn zero() -> (p: Point3)
        ensures
            p == Point3::zero_spec(),
    {
        Point3 { x: ZERO_BITS, y: ZERO_BITS, z: ZERO_BITS }
    }
}

/// A straight-alpha RGBA color, as four binary32 bit patterns.
#[derive(Debug, Clone, Copy, PartialEq, Eq, Structural)]
pub struct Color4 {
    pub r: u32,
    pub g: u32,
    pub b: u32,
    pub a: u32,
}

/// A 4x4 transform, as sixteen binary32 bit patterns in column-major
/// order (the convention of `glam::Mat4::to_cols_array`).
#[derive(Debug, Clone, Copy)]
pub struct Mat4 {
    pub e: [u32; 16],
}

impl Mat4 {
    pub open spec fn identity_spec() -> Mat4 {
        Mat4 {
            e: [
                ONE_BITS, 0, 0, 0,
                0, ONE_BITS, 0, 0,
                0, 0, ONE_BITS, 0,
                0, 0, 0, ONE_BITS,
            ],
        }
    }

    pub fn identity() -> (m: Mat4)
        ensures
            m == Mat4::identity_spec(),
    {
        Mat4 {
            e: [
                ONE_BITS, 0, 0, 0,
                0, ONE_BITS, 0, 0,
                0, 0, ONE_BITS, 0,
                0, 0, 0, ONE_BITS,
            ],
        }
    }
}

pub uninterp spec fn mat_apply(m: Mat4, p: Point3) -> Point3;

/// Relies on `glam::Mat4::transform_point3`: the affine transform of the
/// point, a fixed composition of IEEE-754 binary32 multiplications and
/// additions, so the result's bits are a function of the matrix and point
/// bits alone.
#[verifier::external_body]
pub fn transform_point(m: &Mat4, p: Point3) -> (r: Point3)
    ensures
        r == mat_apply(*m, p),
{
    let mm: glam::Mat4 = bytemuck::cast(m.e);
    let pv: glam::Vec3 = bytemuck::cast([p.x, p.y, p.z]);
    let t = mm.transform_point3(pv).to_array();
    Point3 { x: t[0].to_bits(), y: t[1].to_bits(), z: t[2].to_bits() }
}

} // verus!
