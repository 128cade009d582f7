//! Textures: one owned image handle plus format and unit bookkeeping.
//!
//! The hardware texture unit is derived from the handle, never stored
//! independently; a derived unit outside the hardware range is a
//! reported error, never silently wrapped or clamped. Pixel data
//! arrives already decoded — the decoding collaborator hands over raw
//! bytes with width, height and channel count — and the library decides
//! the format and assembles the one-shot upload the caller performs.

use vstd::prelude::*;
use crate::err::Error;
use crate::shader::Program;

verus! {

/// The supported pixel formats: three channels or four. Any other
/// decoded channel count is a reportable error, never a best-effort
/// fallback.
#[derive(Clone, Copy, Debug, PartialEq, Eq, Structural)]
pub enum TextureFormat {
    Rgb,
    Rgba,
}

impl TextureFormat {
    /// Bytes per pixel of this format.
    pub open spec fn channels_spec(self) -> usize {
        match self {
            TextureFormat::Rgb => 3usize,
            TextureFormat::Rgba => 4usize,
        }
    }

    /// Bytes per pixel of this format.
    #[verifier::when_used_as_spec(channels_spec)]
    pub fn channels(self) -> (r: usize)
        ensures
            r == self.channels_spec(),
    {
        match self {
            TextureFormat::Rgb => 3,
            TextureFormat::Rgba => 4,
        }
    }

    /// The API's pixel-format enumeration value for this format.
    pub fn gl_value(&self) -> (r: u32)
        ensures
            *self is Rgb ==> r == 0x1907u32,
            *self is Rgba ==> r == 0x1908u32,
    {
        match self {
            TextureFormat::Rgb => crate::glconst::gl_rgb(),
            TextureFormat::Rgba => crate::glconst::gl_rgba(),
        }
    }
}

/// One image upload the caller must perform: target, internal format,
/// dimensions, pixel format and component type, and the byte length of
/// the pixel data.
#[derive(Clone, Copy, Debug, PartialEq, Eq, Structural)]
pub struct TexImageDesc {
    pub target: u32,
    pub internal_format: i32,
    pub width: i32,
    pub height: i32,
    pub format: u32,
    pub pixel_type: u32,
    pub byte_len: usize,
}

/// A 2D texture: an owned image handle plus its dimensions and format.
#[derive(Clone, Copy, Debug, PartialEq, Eq, Structural)]
pub struct Texture {
    pub id: u32,
    pub width: u32,
    pub height: u32,
    pub format: TextureFormat,
}

impl Texture {
    /// A texture owns a positive handle; the API never allocates zero.
    pub open spec fn wf(self) -> bool {
        self.id >= 1
    }

    /// Wrap the handle the API allocated for an image resource.
    pub fn new(id: u32, width: u32, height: u32, format: TextureFormat) -> (r: Texture)
        requires
            id >= 1,
        ensures
            r.id == id,
            r.width == width,
            r.height == height,
            r.format == format,
            r.wf(),
    {
        Texture { id, width, height, format }
    }

    /// The hardware texture unit derived from the handle.
    pub open spec fn unit_spec(self) -> int {
        self.id - 1
    }

    /// The hardware texture unit derived from the handle.
    pub fn unit(&self) -> (r: u32)
        requires
            self.wf(),
        ensures
            r == self.unit_spec(),
    {
        self.id - 1
    }

    /// Select this texture's unit: for a derived unit within the
    /// hardware range [0, 31] the API's unit enumeration value is
    /// returned; any greater unit is reported out of range, never
    /// wrapped or clamped.
    pub fn activate(&self) -> (r: Result<u32, Error>)
        requires
            self.wf(),
        ensures
            self.unit_spec() <= 31 ==> r == Ok::<u32, Error>((0x84C0 + self.unit_spec()) as u32),
            self.unit_spec() > 31 ==> r == Err::<u32, Error>(Error::TextureUnitOutOfRange(self.id)),
    {
        let u = self.unit();
        if u <= 31 {
            Ok(crate::glconst::gl_texture0() + u)
        } else {
            Err(Error::TextureUnitOutOfRange(self.id))
        }
    }

    /// The one-shot image upload for this texture's pixel data: the 2D
    /// target, the format-derived internal format and pixel format, the
    /// byte component type, and the full byte length.
    pub fn data(&self, pixels: &Vec<u8>) -> (r: TexImageDesc)
        requires
            self.width <= 0x7FFFFFFF,
            self.height <= 0x7FFFFFFF,
            pixels@.len() == self.width * self.height * self.format.channels_spec(),
        ensures
            r.target == 0x0DE1u32,
            self.format is Rgb ==> r.internal_format == 0x1907i32 && r.format == 0x1907u32,
            self.format is Rgba ==> r.internal_format == 0x1908i32 && r.format == 0x1908u32,
            r.width == self.width as i32,
            r.height == self.height as i32,
            r.pixel_type == 0x1401u32,
            r.byte_len == pixels@.len(),
    {
        let value = self.format.gl_value();
        TexImageDesc {
            target: crate::glconst::gl_texture_2d(),
            internal_format: value as i32,
            width: self.width as i32,
            height: self.height as i32,
            format: value,
            pixel_type: crate::glconst::gl_unsigned_byte(),
            byte_len: pixels.len(),
        }
    }

    /// Assemble a texture from decoded pixel data and derive the upload
    /// the caller must perform: create, bind, image, mipmap.
    pub fn load_data(id: u32, pixels: &Vec<u8>, width: u32, height: u32, format: TextureFormat) -> (r:
        (Texture, TexImageDesc))
        requires
            id >= 1,
            width <= 0x7FFFFFFF,
            height <= 0x7FFFFFFF,
            pixels@.len() == width * height * format.channels_spec(),
        ensures
            r.0.id == id,
            r.0.width == width,
            r.0.height == height,
            r.0.format == format,
            r.0.wf(),
            r.1 == r.0.data_desc_spec(pixels@.len() as int),
    {
        let texture = Texture::new(id, width, height, format);
        let desc = texture.data(pixels);
        proof {
            assert(desc == texture.data_desc_spec(pixels@.len() as int));
        }
        (texture, desc)
    }

    /// The upload descriptor this texture declares for pixel data of
    /// the given byte length.
    pub open spec fn data_desc_spec(self, byte_len: int) -> TexImageDesc {
        TexImageDesc {
            target: 0x0DE1u32,
            internal_format: if self.format is Rgb {
                0x1907i32
            } else {
                0x1908i32
            },
            width: self.width as i32,
            height: self.height as i32,
            format: if self.format is Rgb {
                0x1907u32
            } else {
                0x1908u32
            },
            pixel_type: 0x1401u32,
            byte_len: byte_len as usize,
        }
    }

    /// The texture format for a decoded image's channel count: three
    /// and four channels are supported, anything else is an error.
    pub fn format_for_channels(channels: u8) -> (r: Result<TextureFormat, Error>)
        ensures
            channels == 3 ==> r == Ok::<TextureFormat, Error>(TextureFormat::Rgb),
            channels == 4 ==> r == Ok::<TextureFormat, Error>(TextureFormat::Rgba),
            channels != 3 && channels != 4 ==> r == Err::<TextureFormat, Error>(
                Error::UnsupportedImageFormat(channels),
            ),
    {
        if channels == 3 {
            Ok(TextureFormat::Rgb)
        } else if channels == 4 {
            Ok(TextureFormat::Rgba)
        } else {
            Err(Error::UnsupportedImageFormat(channels))
        }
    }

    /// The decision core of loading a decoded image: classify the
    /// channel count, then assemble the texture and its upload.
    pub fn load_decoded(id: u32, pixels: &Vec<u8>, width: u32, height: u32, channels: u8) -> (r:
        Result<(Texture, TexImageDesc), Error>)
        requires
            id >= 1,
            width <= 0x7FFFFFFF,
            height <= 0x7FFFFFFF,
            channels == 3 || channels == 4 ==> pixels@.len() == width * height * channels,
        ensures
            channels == 3 ==> (r matches Ok(p) && p.0 == (Texture {
                id,
                width,
                height,
                format: TextureFormat::Rgb,
            }) && p.1 == p.0.data_desc_spec(pixels@.len() as int)),
            channels == 4 ==> (r matches Ok(p) && p.0 == (Texture {
                id,
                width,
                height,
                format: TextureFormat::Rgba,
            }) && p.1 == p.0.data_desc_spec(pixels@.len() as int)),
            channels != 3 && channels != 4 ==> r == Err::<(Texture, TexImageDesc), Error>(
                Error::UnsupportedImageFormat(channels),
            ),
    {
        match Texture::format_for_channels(channels) {
            Ok(format) => Ok(Texture::load_data(id, pixels, width, height, format)),
            Err(e) => Err(e),
        }
    }

    /// The sampler value for this texture: its unit, written through
    /// the program's uniform only after the lookup-then-write check on
    /// the location the API reported for `name`.
    pub fn uniform(&self, program: &Program, name: String, location: i32) -> (r: Result<i32, Error>)
        requires
            self.wf(),
            self.unit_spec() <= 0x7FFFFFFF,
        ensures
            location >= 0 ==> r == Ok::<i32, Error>(self.unit_spec() as i32),
            location < 0 ==> (r matches Err(e)
                && (e matches Error::UniformNotFound(n) && n@ == name@)),
    {
        match program.uniform_check(name, location) {
            Ok(_) => Ok(self.unit() as i32),
            Err(e) => Err(e),
        }
    }
}

} // verus!
