//! The image of a DICOM file.
//!
//! DCM files can have multiple images embedded, with different interlacing, color format and
//! so on. This library decodes one grayscale frame into a buffer of the `image` crate, which can
//! then be used to save the image to a file, and hands compressed pixel data out as it is.

use image::{ImageBuffer, Luma};
use vstd::prelude::*;

verus! {

/// An 8-bit grayscale raster: an `ImageBuffer` of the `image` crate.
#[verifier::external_body]
#[derive(Debug)]
pub struct Gray8Image {
    inner: ImageBuffer<Luma<u8>, Vec<u8>>,
}

/// A 16-bit grayscale raster: an `ImageBuffer` of the `image` crate.
#[verifier::external_body]
#[derive(Debug)]
pub struct Gray16Image {
    inner: ImageBuffer<Luma<u16>, Vec<u16>>,
}

/// The samples that the buffer holds, row by row: the pixel at column `x` of
/// row `y` is the sample at `y * width + x`.
pub uninterp spec fn gray8_samples(image: Gray8Image) -> Seq<u8>;

/// The width and the height that the buffer was made with.
pub uninterp spec fn gray8_size(image: Gray8Image) -> (u32, u32);

/// The samples that the buffer holds, row by row: the pixel at column `x` of
/// row `y` is the sample at `y * width + x`.
pub uninterp spec fn gray16_samples(image: Gray16Image) -> Seq<u16>;

/// The width and the height that the buffer was made with.
pub uninterp spec fn gray16_size(image: Gray16Image) -> (u32, u32);

impl Gray8Image {
    /// `ImageBuffer::from_raw`: the buffer is made when `samples` holds at
    /// least `width * height` samples, and then holds `samples` as they are.
    #[verifier::external_body]
    pub(crate) fn from_raw(width: u32, height: u32, samples: Vec<u8>) -> (made: Option<Self>)
        ensures
            made is Some <==> width * height <= samples@.len(),
            made matches Some(image) ==> gray8_size(image) == (width, height) && gray8_samples(
                image,
            ) == samples@,
    {
        match ImageBuffer::from_raw(width, height, samples) {
            Some(inner) => Some(Gray8Image { inner }),
            None => None,
        }
    }

    /// `ImageBuffer::dimensions`: the width and the height of the buffer.
    #[verifier::external_body]
    pub(crate) fn size(&self) -> (size: (u32, u32))
        ensures
            size == gray8_size(*self),
    {
        self.inner.dimensions()
    }

    /// `ImageBuffer::as_raw`: a copy of the samples that the buffer holds.
    #[verifier::external_body]
    pub(crate) fn raw(&self) -> (samples: Vec<u8>)
        ensures
            samples@ == gray8_samples(*self),
    {
        self.inner.as_raw().clone()
    }

    /// An image of the given width and height from its samples, row by row.
    /// There is none where the samples are fewer than the pixels.
    pub fn from_samples(width: u32, height: u32, samples: Vec<u8>) -> (made: Option<Self>)
        ensures
            made is Some <==> width * height <= samples@.len(),
            made matches Some(image) ==> gray8_size(image) == (width, height) && gray8_samples(
                image,
            ) == samples@,
    {
        Self::from_raw(width, height, samples)
    }

    /// The width and height of this image.
    pub fn dimensions(&self) -> (size: (u32, u32))
        ensures
            size == gray8_size(*self),
    {
        self.size()
    }

    /// The samples of this image, row by row.
    pub fn samples(&self) -> (samples: Vec<u8>)
        ensures
            samples@ == gray8_samples(*self),
    {
        self.raw()
    }
}

impl Gray16Image {
    /// `ImageBuffer::from_raw`: the buffer is made when `samples` holds at
    /// least `width * height` samples, and then holds `samples` as they are.
    #[verifier::external_body]
    pub(crate) fn from_raw(width: u32, height: u32, samples: Vec<u16>) -> (made: Option<Self>)
        ensures
            made is Some <==> width * height <= samples@.len(),
            made matches Some(image) ==> gray16_size(image) == (width, height) && gray16_samples(
                image,
            ) == samples@,
    {
        match ImageBuffer::from_raw(width, height, samples) {
            Some(inner) => Some(Gray16Image { inner }),
            None => None,
        }
    }

    /// `ImageBuffer::dimensions`: the width and the height of the buffer.
    #[verifier::external_body]
    pub(crate) fn size(&self) -> (size: (u32, u32))
        ensures
            size == gray16_size(*self),
    {
        self.inner.dimensions()
    }

    /// `ImageBuffer::as_raw`: a copy of the samples that the buffer holds.
    #[verifier::external_body]
    pub(crate) fn raw(&self) -> (samples: Vec<u16>)
        ensures
            samples@ == gray16_samples(*self),
    {
        self.inner.as_raw().clone()
    }

    /// An image of the given width and height from its samples, row by row.
    /// There is none where the samples are fewer than the pixels.
    pub fn from_samples(width: u32, height: u32, samples: Vec<u16>) -> (made: Option<Self>)
        ensures
            made is Some <==> width * height <= samples@.len(),
            made matches Some(image) ==> gray16_size(image) == (width, height) && gray16_samples(
                image,
            ) == samples@,
    {
        Self::from_raw(width, height, samples)
    }

    /// The width and height of this image.
    pub fn dimensions(&self) -> (size: (u32, u32))
        ensures
            size == gray16_size(*self),
    {
        self.size()
    }

    /// The samples of this image, row by row.
    pub fn samples(&self) -> (samples: Vec<u16>)
        ensures
            samples@ == gray16_samples(*self),
    {
        self.raw()
    }
}

#[allow(inconsistent_fields)]
#[derive(Debug)]
pub enum DicomImage {
    Grayscale16 { image: Gray16Image },
    Grayscale8 { image: Gray8Image },
    Jpeg2000 { image: Vec<u8> },
}

/// What an image is: its size and its samples row by row, or the bytes of
/// the compressed stream.
#[verifier::ext_equal]
#[allow(inconsistent_fields)]
pub enum ImageModel {
    Grayscale16 { width: u32, height: u32, samples: Seq<u16> },
    Grayscale8 { width: u32, height: u32, samples: Seq<u8> },
    Jpeg2000 { stream: Seq<u8> },
}

impl View for DicomImage {
    type V = ImageModel;

    open spec fn view(&self) -> ImageModel {
        match *self {
            DicomImage::Grayscale16 { image } => ImageModel::Grayscale16 {
                width: gray16_size(image).0,
                height: gray16_size(image).1,
                samples: gray16_samples(image),
            },
            DicomImage::Grayscale8 { image } => ImageModel::Grayscale8 {
                width: gray8_size(image).0,
                height: gray8_size(image).1,
                samples: gray8_samples(image),
            },
            DicomImage::Jpeg2000 { image } => ImageModel::Jpeg2000 { stream: image@ },
        }
    }
}

impl DicomImage {
    /// The width and the height of a decoded image. A compressed stream has
    /// not been decoded, so its size is not known.
    pub fn dimensions(&self) -> (size: (u32, u32))
        requires
            !(self is Jpeg2000),
        ensures
            self@ matches ImageModel::Grayscale16 { width, height, .. } ==> size == (width, height),
            self@ matches ImageModel::Grayscale8 { width, height, .. } ==> size == (width, height),
    {
        match self {
            DicomImage::Grayscale16 { image } => image.dimensions(),
            DicomImage::Grayscale8 { image } => image.dimensions(),
            DicomImage::Jpeg2000 { .. } => {
                proof {
                    assert(false);
                }
                (0, 0)
            },
        }
    }
}

} // verus!
