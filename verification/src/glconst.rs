//! Accessors for the handful of graphics-API enumeration values the library
//! computes with. Each is a trusted reading of one constant of the `gl33`
//! crate, so that the values in the library's contracts are the values the
//! API actually uses.

use vstd::prelude::*;

verus! {

/// Relies on gl33::GL_ARRAY_BUFFER, the vertex-data buffer target.
#[verifier::external_body]
pub(crate) fn gl_array_buffer() -> (r: u32)
    ensures
        r == 0x8892u32,
{
    gl33::GL_ARRAY_BUFFER.0
}

/// Relies on gl33::GL_ELEMENT_ARRAY_BUFFER, the index-data buffer target.
#[verifier::external_body]
pub(crate) fn gl_element_array_buffer() -> (r: u32)
    ensures
        r == 0x8893u32,
{
    gl33::GL_ELEMENT_ARRAY_BUFFER.0
}

/// Relies on gl33::GL_STATIC_DRAW, the one-shot upload usage hint.
#[verifier::external_body]
pub(crate) fn gl_static_draw() -> (r: u32)
    ensures
        r == 0x88E4u32,
{
    gl33::GL_STATIC_DRAW.0
}

/// Relies on gl33::GL_FLOAT, the component type tag of vertex attributes.
#[verifier::external_body]
pub(crate) fn gl_float() -> (r: u32)
    ensures
        r == 0x1406u32,
{
    gl33::GL_FLOAT.0
}

/// Relies on gl33::GL_VERTEX_SHADER, the vertex-stage compiler entry.
#[verifier::external_body]
pub(crate) fn gl_vertex_shader() -> (r: u32)
    ensures
        r == 0x8B31u32,
{
    gl33::GL_VERTEX_SHADER.0
}

/// Relies on gl33::GL_FRAGMENT_SHADER, the fragment-stage compiler entry.
#[verifier::external_body]
pub(crate) fn gl_fragment_shader() -> (r: u32)
    ensures
        r == 0x8B30u32,
{
    gl33::GL_FRAGMENT_SHADER.0
}

/// Relies on gl33::GL_TEXTURE0, the first hardware texture unit.
#[verifier::external_body]
pub(crate) fn gl_texture0() -> (r: u32)
    ensures
        r == 0x84C0u32,
{
    gl33::GL_TEXTURE0.0
}

/// Relies on gl33::GL_TEXTURE_2D, the two-dimensional texture target.
#[verifier::external_body]
pub(crate) fn gl_texture_2d() -> (r: u32)
    ensures
        r == 0x0DE1u32,
{
    gl33::GL_TEXTURE_2D.0
}

/// Relies on gl33::GL_RGB, the three-channel pixel format.
#[verifier::external_body]
pub(crate) fn gl_rgb() -> (r: u32)
    ensures
        r == 0x1907u32,
{
    gl33::GL_RGB.0
}

/// Relies on gl33::GL_RGBA, the four-channel pixel format.
#[verifier::external_body]
pub(crate) fn gl_rgba() -> (r: u32)
    ensures
        r == 0x1908u32,
{
    gl33::GL_RGBA.0
}

/// Relies on gl33::GL_UNSIGNED_BYTE, the pixel component type tag.
#[verifier::external_body]
pub(crate) fn gl_unsigned_byte() -> (r: u32)
    ensures
        r == 0x1401u32,
{
    gl33::GL_UNSIGNED_BYTE.0
}

} // verus!
