//! GPU-accelerated encoding front end.
//!
//! Device initialization needs compute-shader toolchains that sit outside
//! the verified core, so detection never yields a device here; the dispatch,
//! estimation, and suitability logic is verified for every backend value.

use vstd::prelude::*;

verus! {

use crate::error::{EncodingError, EncodingResult};
use crate::types::{RawImage, WebPConfig};

/// GPU backend type.
#[derive(Debug, Clone, Copy, PartialEq, Eq, Structural)]
pub enum GpuBackend {
    DirectCompute,
    Metal,
    Vulkan,
    OpenCL,
    NoBackend,
}

/// The name of each backend.
pub open spec fn backend_name_spec(backend: GpuBackend) -> Seq<char> {
    match backend {
        GpuBackend::DirectCompute => "DirectCompute"@,
        GpuBackend::Metal => "Metal"@,
        GpuBackend::Vulkan => "Vulkan"@,
        GpuBackend::OpenCL => "OpenCL"@,
        GpuBackend::NoBackend => "None"@,
    }
}

/// The rough per-backend encoding time estimate in microseconds for a pixel
/// count, when a device is available.
pub open spec fn estimate_micros_spec(backend: GpuBackend, pixels: int) -> int {
    match backend {
        GpuBackend::DirectCompute => pixels / 10000,
        GpuBackend::Metal => pixels / 12000,
        GpuBackend::Vulkan => pixels / 8000,
        _ => pixels / 5000,
    }
}

/// GPU-accelerated encoder.
pub struct GpuWebPEncoder {
    backend: GpuBackend,
    device_available: bool,
}

impl GpuWebPEncoder {
    /// The detected backend.
    pub closed spec fn spec_backend(self) -> GpuBackend {
        self.backend
    }

    /// Whether an initialized device is held.
    pub closed spec fn spec_available(self) -> bool {
        self.device_available
    }

    /// Create a new GPU-accelerated encoder. Device initialization is outside
    /// the verified core, so detection yields no device.
    pub fn new() -> (g: GpuWebPEncoder)
        ensures
            g.spec_backend() == GpuBackend::NoBackend,
            !g.spec_available(),
    {
        GpuWebPEncoder { backend: GpuBackend::NoBackend, device_available: false }
    }

    /// Check if GPU acceleration is available.
    pub fn is_available(&self) -> (b: bool)
        ensures
            b == self.spec_available(),
    {
        self.device_available
    }

    /// Encode an image on the GPU; without a device this fails with an
    /// unsupported-feature error.
    pub fn encode(&self, image: &RawImage, config: &WebPConfig) -> (r: EncodingResult<Vec<u8>>)
        ensures
            !self.spec_available() ==> (r matches Err(e) && e
                matches EncodingError::UnsupportedFeature(m) && m@
                == "GPU encoding not available"@),
    {
        Err(EncodingError::UnsupportedFeature("GPU encoding not available".to_owned()))
    }

    /// Get the GPU backend name.
    pub fn backend_name(&self) -> (s: String)
        ensures
            s@ == backend_name_spec(self.spec_backend()),
    {
        match self.backend {
            GpuBackend::DirectCompute => "DirectCompute".to_owned(),
            GpuBackend::Metal => "Metal".to_owned(),
            GpuBackend::Vulkan => "Vulkan".to_owned(),
            GpuBackend::OpenCL => "OpenCL".to_owned(),
            GpuBackend::NoBackend => "None".to_owned(),
        }
    }

    /// Get device information, when a device is held.
    pub fn device_info(&self) -> (r: Option<String>)
        ensures
            r is None,
    {
        None
    }

    /// Estimate the encoding time in microseconds for an image size, based on
    /// rough per-backend throughputs; zero without a device.
    pub fn estimate_encoding_time(&self, width: u32, height: u32) -> (t: u64)
        ensures
            t == if self.spec_available() {
                estimate_micros_spec(self.spec_backend(), width * height)
            } else {
                0int
            },
    {
        if !self.device_available {
            return 0;
        }
        proof {
            assert(width * height <= u64::MAX) by (nonlinear_arith)
                requires
                    width <= u32::MAX,
                    height <= u32::MAX,
            ;
        }
        let pixels: u64 = (width as u64) * (height as u64);
        match self.backend {
            GpuBackend::DirectCompute => pixels / 10000,
            GpuBackend::Metal => pixels / 12000,
            GpuBackend::Vulkan => pixels / 8000,
            GpuBackend::OpenCL => pixels / 5000,
            GpuBackend::NoBackend => pixels / 5000,
        }
    }

    /// GPU encoding pays off only for large frames: at least full HD.
    pub fn is_size_suitable(&self, width: u32, height: u32) -> (b: bool)
        ensures
            b == (width * height >= 1920 * 1080),
    {
        proof {
            assert(width * height <= u64::MAX) by (nonlinear_arith)
                requires
                    width <= u32::MAX,
                    height <= u32::MAX,
            ;
        }
        let pixels: u64 = (width as u64) * (height as u64);
        pixels >= 1920 * 1080
    }
}

} // verus!
