use vstd::prelude::*;

verus! {

/// The color model of a decoded pixel buffer, limited to the byte-per-channel
/// layouts the transport encoder accepts.
#[derive(Clone, Copy, Debug, PartialEq, Eq, Structural)]
pub enum ColorModel {
    /// One luminance byte per pixel.
    L8,
    /// Luminance and alpha, two bytes per pixel.
    La8,
    /// Red, green, blue, three bytes per pixel.
    Rgb8,
    /// Red, green, blue, alpha, four bytes per pixel.
    Rgba8,
}

/// Bytes each pixel occupies in the raw buffer.
pub open spec fn bytes_per_pixel_spec(c: ColorModel) -> int {
    match c {
        ColorModel::L8 => 1,
        ColorModel::La8 => 2,
        ColorModel::Rgb8 => 3,
        ColorModel::Rgba8 => 4,
    }
}

/// A distinct code per color model, used to index results that depend on it.
pub open spec fn color_code(c: ColorModel) -> int {
    match c {
        ColorModel::L8 => 0,
        ColorModel::La8 => 1,
        ColorModel::Rgb8 => 2,
        ColorModel::Rgba8 => 3,
    }
}

impl ColorModel {
    /// Bytes each pixel occupies in the raw buffer.
    pub fn bytes_per_pixel(&self) -> (r: u32)
        ensures
            r as int == bytes_per_pixel_spec(*self),
    {
        match self {
            ColorModel::L8 => 1,
            ColorModel::La8 => 2,
            ColorModel::Rgb8 => 3,
            ColorModel::Rgba8 => 4,
        }
    }
}

/// A decoded image: native pixel dimensions, color model, and the raw pixel
/// bytes, row-major.
pub struct RasterImage {
    /// Native width in pixels.
    pub width: u32,
    /// Native height in pixels.
    pub height: u32,
    /// Layout of `data`.
    pub color: ColorModel,
    /// Raw pixel bytes, `width * height` pixels.
    pub data: Vec<u8>,
}

impl RasterImage {
    /// The buffer length agrees with the dimensions and color model.
    pub open spec fn wf(self) -> bool {
        self.data@.len() == self.width as int * self.height as int * bytes_per_pixel_spec(
            self.color,
        )
    }

    /// Builds a decoded image, checking that the buffer length agrees with
    /// the dimensions and color model.
    pub fn new(width: u32, height: u32, color: ColorModel, data: Vec<u8>) -> (r: Option<
        RasterImage,
    >)
        ensures
            r is Some <==> data@.len() == width as int * height as int * bytes_per_pixel_spec(
                color,
            ),
            r matches Some(img) ==> img.wf() && img.width == width && img.height == height
                && img.color == color && img.data@ == data@,
    {
        let bpp = color.bytes_per_pixel();
        proof {
            vstd::arithmetic::mul::lemma_mul_upper_bound(
                width as int,
                u32::MAX as int,
                height as int,
                u32::MAX as int,
            );
            vstd::arithmetic::mul::lemma_mul_upper_bound(
                width as int * height as int,
                u32::MAX as int * u32::MAX as int,
                bpp as int,
                4,
            );
        }
        let expected: u128 = (width as u128) * (height as u128) * (bpp as u128);
        if (data.len() as u128) == expected {
            Some(RasterImage { width, height, color, data })
        } else {
            None
        }
    }
}

} // verus!
