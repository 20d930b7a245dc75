//! The image-codec capability interface and the verified pre-encoding logic:
//! configuration and dimension validation, and pixel normalization to the
//! channel orders a codec accepts.
//!
//! The codec itself (the actual bitstream compressor) is an external
//! collaborator that implements `ImageEncoder` outside the verified core.

use vstd::prelude::*;

verus! {

use crate::error::{EncodingError, EncodingResult};
use crate::simd::{swap_rb, SimdConverter};
use crate::types::{PixelFormat, RawImage, WebPConfig};

/// Capability for image encoders. Implementations live outside the verified
/// core, so the methods carry no contracts: every caller in this library
/// states what holds whatever they return.
pub trait ImageEncoder {
    /// Encode raw image data.
    fn encode(&mut self, image: &RawImage, config: &WebPConfig) -> EncodingResult<Vec<u8>>;

    /// Get the encoder name.
    fn name(&self) -> String;

    /// Check if the encoder supports a specific pixel format.
    fn supports_format(&self, format: PixelFormat) -> bool;
}

/// Whether the pre-encoding checks accept this image and configuration.
pub open spec fn encode_input_ok(image: RawImage, config: WebPConfig) -> bool {
    config.valid_spec() && image.width != 0 && image.height != 0
}

/// Check an image and configuration before encoding. `Ok` exactly when the
/// configuration is in range and both dimensions are nonzero; an
/// out-of-range configuration is reported before bad dimensions.
pub fn validate_for_encoding(image: &RawImage, config: &WebPConfig) -> (r: EncodingResult<()>)
    ensures
        r is Ok <==> encode_input_ok(*image, *config),
        r matches Err(e) ==> if config.valid_spec() {
            e == (EncodingError::InvalidDimensions { width: image.width, height: image.height })
        } else {
            e is InvalidConfiguration
        },
{
    match config.validate() {
        Ok(_) => {
            if image.width == 0 || image.height == 0 {
                Err(EncodingError::InvalidDimensions { width: image.width, height: image.height })
            } else {
                Ok(())
            }
        },
        Err(msg) => Err(EncodingError::InvalidConfiguration(msg)),
    }
}

/// Normalize pixel data for a codec that takes RGBA or RGB: BGRA and BGR get
/// their channels swapped into RGBA and RGB, RGBA and RGB pass through
/// unchanged, and the grayscale formats are refused as unsupported.
pub fn prepare_pixels(image: &RawImage) -> (r: EncodingResult<(Vec<u8>, PixelFormat)>)
    ensures
        match r {
            Ok(prepared) => match image.format {
                PixelFormat::RGBA8 => prepared.0@ == image.data@ && prepared.1
                    == PixelFormat::RGBA8,
                PixelFormat::RGB8 => prepared.0@ == image.data@ && prepared.1 == PixelFormat::RGB8,
                PixelFormat::BGRA8 => prepared.0@ == swap_rb(image.data@, 4) && prepared.1
                    == PixelFormat::RGBA8,
                PixelFormat::BGR8 => prepared.0@ == swap_rb(image.data@, 3) && prepared.1
                    == PixelFormat::RGB8,
                _ => false,
            },
            Err(e) => (image.format is Gray8 || image.format is GrayA8) && e
                is UnsupportedFormat,
        },
{
    match image.format {
        PixelFormat::RGBA8 => Ok((image.data.clone(), PixelFormat::RGBA8)),
        PixelFormat::RGB8 => Ok((image.data.clone(), PixelFormat::RGB8)),
        PixelFormat::BGRA8 => {
            let mut data = image.data.clone();
            SimdConverter::new().convert_bgra_to_rgba(&mut data);
            Ok((data, PixelFormat::RGBA8))
        },
        PixelFormat::BGR8 => {
            let mut data = image.data.clone();
            SimdConverter::new().convert_bgr_to_rgb(&mut data);
            Ok((data, PixelFormat::RGB8))
        },
        PixelFormat::Gray8 => {
            Err(EncodingError::UnsupportedFormat("grayscale input is not supported".to_owned()))
        },
        PixelFormat::GrayA8 => {
            Err(
                EncodingError::UnsupportedFormat(
                    "grayscale-with-alpha input is not supported".to_owned(),
                ),
            )
        },
    }
}

} // verus!
