//! Streaming pipeline: capture, encode, and delivery under a frame-rate
//! target, with backpressure, frame dropping, and adaptive quality control.
//!
//! The pipeline here is the decision core: a state machine over the running
//! flag, the frame counter, and the statistics, plus one verified step
//! function per stage. A runner outside the verified core owns the threads
//! and bounded channels, performs each stage's outside work, and hands the
//! events back to these functions.

use vstd::prelude::*;

verus! {

use crate::capture::ScreenCapture;
use crate::clock::{instant_now, millis_since};
use crate::encoder::ImageEncoder;
use crate::error::{CaptureError, CaptureResult};
use crate::memory_pool::{sat_u64, MemoryPool};
use crate::simd::SimdConverter;
use crate::types::{RawImage, WebPConfig};
use crate::zero_copy::ZeroCopyOptimizer;

/// Multiply two counters, saturating at `u64::MAX`.
fn sat_mul_u64(a: u64, b: u64) -> (r: u64)
    ensures
        r == sat_u64(a * b),
{
    match a.checked_mul(b) {
        Some(v) => v,
        None => u64::MAX,
    }
}

/// Relies on `num_cpus::get`: the number of logical CPUs of the current
/// system, which is always at least 1.
#[verifier::external_body]
fn cpu_count() -> (n: usize)
    ensures
        1 <= n,
{
    num_cpus::get()
}

/// Streaming pipeline configuration.
#[derive(Debug, Clone)]
pub struct StreamingConfig {
    /// Target frames per second.
    pub target_fps: u32,
    /// Maximum frames in each inter-stage channel.
    pub buffer_size: usize,
    /// Number of capture threads.
    pub capture_threads: usize,
    /// Number of encoding threads.
    pub encoding_threads: usize,
    /// Enable adaptive quality.
    pub adaptive_quality: bool,
    /// Enable frame dropping under backlog.
    pub allow_frame_drop: bool,
    /// Initial encoder configuration.
    pub webp_config: WebPConfig,
    /// Use zero-copy optimizations.
    pub use_zero_copy: bool,
    /// Use GPU encoding if available.
    pub use_gpu: bool,
}

impl Default for StreamingConfig {
    /// 30 fps, two seconds of buffer, one capture thread, and half the CPUs
    /// (at least two) encoding.
    fn default() -> (c: StreamingConfig)
        ensures
            c.target_fps == 30,
            c.buffer_size == 60,
            c.capture_threads == 1,
            c.encoding_threads >= 2,
            c.adaptive_quality,
            c.allow_frame_drop,
            c.webp_config == (WebPConfig { quality: 75, method: 0, pass: 1, ..WebPConfig::spec_default() }),
            c.use_zero_copy,
            !c.use_gpu,
    {
        let cpus: usize = cpu_count();
        let half: usize = cpus / 2;
        StreamingConfig {
            target_fps: 30,
            buffer_size: 60,
            capture_threads: 1,
            encoding_threads: if half >= 2 {
                half
            } else {
                2
            },
            adaptive_quality: true,
            allow_frame_drop: true,
            webp_config: WebPConfig::fast(),
            use_zero_copy: true,
            use_gpu: false,
        }
    }
}

/// Streaming statistics. Times are in milliseconds.
#[derive(Debug, Clone, Copy)]
pub struct StreamingStats {
    pub frames_captured: u64,
    pub frames_encoded: u64,
    pub frames_dropped: u64,
    pub bytes_encoded: u64,
    pub total_capture_time_ms: u64,
    pub total_encode_time_ms: u64,
    pub current_fps: u32,
    pub current_bitrate: u64,
    pub avg_capture_time_ms: u64,
    pub avg_encode_time_ms: u64,
}

impl StreamingStats {
    /// The all-zero statistics record.
    pub open spec fn spec_default() -> StreamingStats {
        StreamingStats {
            frames_captured: 0,
            frames_encoded: 0,
            frames_dropped: 0,
            bytes_encoded: 0,
            total_capture_time_ms: 0,
            total_encode_time_ms: 0,
            current_fps: 0,
            current_bitrate: 0,
            avg_capture_time_ms: 0,
            avg_encode_time_ms: 0,
        }
    }
}

impl Default for StreamingStats {
    /// All counters start at zero.
    fn default() -> (s: StreamingStats)
        ensures
            s == Self::spec_default(),
    {
        StreamingStats {
            frames_captured: 0,
            frames_encoded: 0,
            frames_dropped: 0,
            bytes_encoded: 0,
            total_capture_time_ms: 0,
            total_encode_time_ms: 0,
            current_fps: 0,
            current_bitrate: 0,
            avg_capture_time_ms: 0,
            avg_encode_time_ms: 0,
        }
    }
}

/// Frame data in the pipeline: a captured image tagged with a monotonically
/// increasing id and the time its capture took.
#[derive(Debug, Clone)]
pub struct Frame {
    /// Sequence id, assigned in capture order.
    pub id: u64,
    /// The captured image.
    pub image: RawImage,
    /// How long the capture took, in milliseconds.
    pub capture_duration_ms: u64,
}

/// A deep backlog tells the encode stage to discard the frame.
pub open spec fn should_drop_frame(allow_frame_drop: bool, backlog: int) -> bool {
    allow_frame_drop && backlog > 10
}

/// Adaptive quality policy: a slow capture or a deep backlog lowers quality
/// by 5 (floor 60) and method by 1 (floor 0); a fast capture with a shallow
/// backlog raises quality by 2 (ceiling 90) and method by 1 (ceiling 4);
/// otherwise the configuration is held steady.
pub open spec fn adjust_quality_spec(
    config: WebPConfig,
    capture_duration_ms: int,
    buffer_depth: int,
) -> WebPConfig {
    if capture_duration_ms > 20 || buffer_depth > 30 {
        WebPConfig {
            quality: if config.quality >= 65 {
                (config.quality - 5) as u8
            } else {
                60
            },
            method: if config.method >= 1 {
                (config.method - 1) as u8
            } else {
                0
            },
            ..config
        }
    } else if capture_duration_ms < 10 && buffer_depth < 10 {
        WebPConfig {
            quality: if config.quality <= 88 {
                (config.quality + 2) as u8
            } else {
                90
            },
            method: if config.method <= 3 {
                (config.method + 1) as u8
            } else {
                4
            },
            ..config
        }
    } else {
        config
    }
}

/// Streaming pipeline over a capture capability. `start`/`stop` drive the
/// running flag; the per-stage step functions below hold the stage logic and
/// are called by the runner that owns the threads and channels.
pub struct StreamingPipeline<C: ScreenCapture> {
    config: StreamingConfig,
    capturer: C,
    running: bool,
    stats: StreamingStats,
    frame_counter: u64,
    memory_pool: MemoryPool,
    zero_copy: ZeroCopyOptimizer,
    simd_converter: SimdConverter,
}

impl<C: ScreenCapture> StreamingPipeline<C> {
    /// Whether the pipeline is running.
    pub closed spec fn spec_running(self) -> bool {
        self.running
    }

    /// The pipeline's configuration.
    pub closed spec fn spec_config(self) -> StreamingConfig {
        self.config
    }

    /// The current statistics.
    pub closed spec fn spec_stats(self) -> StreamingStats {
        self.stats
    }

    /// The id the next captured frame will carry.
    pub closed spec fn spec_frame_counter(self) -> int {
        self.frame_counter as int
    }

    /// Create a new streaming pipeline around a capture capability.
    pub fn new(capturer: C, config: StreamingConfig) -> (p: StreamingPipeline<C>)
        ensures
            !p.spec_running(),
            p.spec_config() == config,
            p.spec_stats() == StreamingStats::spec_default(),
            p.spec_frame_counter() == 0,
    {
        StreamingPipeline {
            config,
            capturer,
            running: false,
            stats: StreamingStats::default(),
            frame_counter: 0,
            memory_pool: MemoryPool::new(),
            zero_copy: ZeroCopyOptimizer::new(),
            simd_converter: SimdConverter::new(),
        }
    }

    /// Get the pipeline's configuration.
    pub fn config(&self) -> (c: &StreamingConfig)
        ensures
            *c == self.spec_config(),
    {
        &self.config
    }

    /// Start the pipeline. Starting an already-running pipeline fails with
    /// an error and has no effect; otherwise the running flag is raised and
    /// the stages may begin.
    pub fn start(&mut self) -> (r: CaptureResult<()>)
        ensures
            final(self).spec_config() == old(self).spec_config(),
            final(self).spec_stats() == old(self).spec_stats(),
            final(self).spec_frame_counter() == old(self).spec_frame_counter(),
            old(self).spec_running() ==> ((r matches Err(e) && e
                matches CaptureError::CaptureFailed(m) && m@ == "Pipeline already running"@)
                && final(self).spec_running() == old(self).spec_running()),
            !old(self).spec_running() ==> (r is Ok && final(self).spec_running()),
    {
        if self.running {
            return Err(CaptureError::CaptureFailed("Pipeline already running".to_owned()));
        }
        self.running = true;
        Ok(())
    }

    /// Stop the pipeline: lower the running flag. Each stage observes it on
    /// its next poll and exits; in-flight work runs to completion.
    pub fn stop(&mut self)
        ensures
            !final(self).spec_running(),
            final(self).spec_config() == old(self).spec_config(),
            final(self).spec_stats() == old(self).spec_stats(),
            final(self).spec_frame_counter() == old(self).spec_frame_counter(),
    {
        self.running = false;
    }

    /// Check if the pipeline is running.
    pub fn is_running(&self) -> (b: bool)
        ensures
            b == self.spec_running(),
    {
        self.running
    }

    /// Get a snapshot of the statistics.
    pub fn stats(&self) -> (s: StreamingStats)
        ensures
            s == self.spec_stats(),
    {
        self.stats
    }

    /// Capture stage step: capture one frame (through the zero-copy
    /// optimizer when configured) and tag it with the next id. A failed
    /// capture skips this tick; retry belongs to the caller of the pipeline.
    pub fn capture_tick(&mut self, display_index: usize) -> (r: Option<Frame>)
        ensures
            final(self).spec_config() == old(self).spec_config(),
            final(self).spec_running() == old(self).spec_running(),
            match r {
                Some(frame) => {
                    &&& frame.id == old(self).spec_frame_counter()
                    &&& final(self).spec_frame_counter() == sat_u64(
                        old(self).spec_frame_counter() + 1,
                    )
                    &&& final(self).spec_stats() == (StreamingStats {
                        frames_captured: sat_u64(
                            old(self).spec_stats().frames_captured + 1,
                        ) as u64,
                        total_capture_time_ms: final(self).spec_stats().total_capture_time_ms,
                        ..old(self).spec_stats()
                    })
                    &&& final(self).spec_stats().total_capture_time_ms >= old(
                        self,
                    ).spec_stats().total_capture_time_ms
                },
                None => {
                    &&& final(self).spec_frame_counter() == old(self).spec_frame_counter()
                    &&& final(self).spec_stats() == old(self).spec_stats()
                },
            },
    {
        let start = instant_now();
        let captured: CaptureResult<RawImage> = if self.config.use_zero_copy {
            self.zero_copy.capture_zero_copy(&self.capturer, display_index)
        } else {
            self.capturer.capture_display(display_index)
        };
        match captured {
            Ok(image) => {
                let capture_duration_ms: u64 = millis_since(&start);
                let id: u64 = self.frame_counter;
                self.frame_counter = self.frame_counter.saturating_add(1);
                self.stats.frames_captured = self.stats.frames_captured.saturating_add(1);
                self.stats.total_capture_time_ms = self.stats.total_capture_time_ms.saturating_add(
                    capture_duration_ms,
                );
                Some(Frame { id, image, capture_duration_ms })
            },
            Err(_) => None,
        }
    }

    /// Encode stage step: under a deep backlog (when frame dropping is on)
    /// the frame is discarded and counted; otherwise the configuration is
    /// adapted (when adaptive quality is on) and the frame handed to the
    /// encoder capability. A per-frame encode failure is swallowed: the
    /// stream must not halt for one bad frame.
    pub fn encode_tick<E: ImageEncoder>(
        &mut self,
        encoder: &mut E,
        frame: &Frame,
        backlog: usize,
        current_config: WebPConfig,
    ) -> (r: (Option<Vec<u8>>, WebPConfig))
        ensures
            final(self).spec_config() == old(self).spec_config(),
            final(self).spec_running() == old(self).spec_running(),
            final(self).spec_frame_counter() == old(self).spec_frame_counter(),
            should_drop_frame(old(self).spec_config().allow_frame_drop, backlog as int) ==> {
                &&& r.0 is None
                &&& r.1 == current_config
                &&& final(self).spec_stats() == (StreamingStats {
                    frames_dropped: sat_u64(old(self).spec_stats().frames_dropped + 1) as u64,
                    ..old(self).spec_stats()
                })
            },
            !should_drop_frame(old(self).spec_config().allow_frame_drop, backlog as int) ==> {
                &&& r.1 == if old(self).spec_config().adaptive_quality {
                    adjust_quality_spec(
                        current_config,
                        frame.capture_duration_ms as int,
                        backlog as int,
                    )
                } else {
                    current_config
                }
                &&& match r.0 {
                    Some(data) => {
                        &&& final(self).spec_stats() == (StreamingStats {
                            frames_encoded: sat_u64(
                                old(self).spec_stats().frames_encoded + 1,
                            ) as u64,
                            bytes_encoded: sat_u64(
                                old(self).spec_stats().bytes_encoded + data@.len(),
                            ) as u64,
                            total_encode_time_ms: final(self).spec_stats().total_encode_time_ms,
                            ..old(self).spec_stats()
                        })
                        &&& final(self).spec_stats().total_encode_time_ms >= old(
                            self,
                        ).spec_stats().total_encode_time_ms
                    },
                    None => final(self).spec_stats() == old(self).spec_stats(),
                }
            },
    {
        if self.config.allow_frame_drop && backlog > 10 {
            // Backlog is building up: discard instead of encoding.
            self.stats.frames_dropped = self.stats.frames_dropped.saturating_add(1);
            return (None, current_config);
        }
        let next_config: WebPConfig = if self.config.adaptive_quality {
            Self::adjust_quality(current_config, frame.capture_duration_ms, backlog)
        } else {
            current_config
        };
        let encode_start = instant_now();
        match encoder.encode(&frame.image, &next_config) {
            Ok(data) => {
                let encode_duration_ms: u64 = millis_since(&encode_start);
                self.stats.frames_encoded = self.stats.frames_encoded.saturating_add(1);
                self.stats.bytes_encoded = self.stats.bytes_encoded.saturating_add(
                    data.len() as u64,
                );
                self.stats.total_encode_time_ms = self.stats.total_encode_time_ms.saturating_add(
                    encode_duration_ms,
                );
                (Some(data), next_config)
            },
            Err(_) => {
                // Per-frame encode failure is dropped, never propagated.
                (None, next_config)
            },
        }
    }

    /// Stats stage step: fold a sampling window into the statistics,
    /// computing the instantaneous rate from the deltas since the last
    /// sample and the cumulative averages.
    pub fn update_rates(&mut self, frames_delta: u64, bytes_delta: u64, elapsed_ms: u64)
        requires
            elapsed_ms >= 1,
        ensures
            final(self).spec_config() == old(self).spec_config(),
            final(self).spec_running() == old(self).spec_running(),
            final(self).spec_frame_counter() == old(self).spec_frame_counter(),
            ({
                let s = final(self).spec_stats();
                let o = old(self).spec_stats();
                &&& s.current_fps == if sat_u64(frames_delta * 1000) / elapsed_ms as int
                    > u32::MAX {
                    u32::MAX as int
                } else {
                    sat_u64(frames_delta * 1000) / elapsed_ms as int
                }
                &&& s.current_bitrate == sat_u64(bytes_delta * 8) / (
                if elapsed_ms / 1000 >= 1 {
                    elapsed_ms as int / 1000
                } else {
                    1
                })
                &&& s.avg_capture_time_ms == (if o.frames_captured == 0 {
                    o.avg_capture_time_ms as int
                } else {
                    o.total_capture_time_ms as int / o.frames_captured as int
                })
                &&& s.avg_encode_time_ms == (if o.frames_encoded == 0 {
                    o.avg_encode_time_ms as int
                } else {
                    o.total_encode_time_ms as int / o.frames_encoded as int
                })
                &&& s == (StreamingStats {
                    current_fps: s.current_fps,
                    current_bitrate: s.current_bitrate,
                    avg_capture_time_ms: s.avg_capture_time_ms,
                    avg_encode_time_ms: s.avg_encode_time_ms,
                    ..o
                })
            }),
    {
        let frames_per_sec: u64 = sat_mul_u64(frames_delta, 1000) / elapsed_ms;
        self.stats.current_fps = if frames_per_sec > u32::MAX as u64 {
            u32::MAX
        } else {
            frames_per_sec as u32
        };
        let elapsed_secs: u64 = if elapsed_ms / 1000 >= 1 {
            elapsed_ms / 1000
        } else {
            1
        };
        self.stats.current_bitrate = sat_mul_u64(bytes_delta, 8) / elapsed_secs;
        if self.stats.frames_captured > 0 {
            self.stats.avg_capture_time_ms = self.stats.total_capture_time_ms
                / self.stats.frames_captured;
        }
        if self.stats.frames_encoded > 0 {
            self.stats.avg_encode_time_ms = self.stats.total_encode_time_ms
                / self.stats.frames_encoded;
        }
    }

    /// Adjust quality based on performance; the exact policy is
    /// `adjust_quality_spec`.
    pub fn adjust_quality(
        config: WebPConfig,
        capture_duration_ms: u64,
        buffer_depth: usize,
    ) -> (c: WebPConfig)
        ensures
            c == adjust_quality_spec(config, capture_duration_ms as int, buffer_depth as int),
    {
        let mut adjusted = config;
        if capture_duration_ms > 20 || buffer_depth > 30 {
            adjusted.quality = if adjusted.quality >= 65 {
                adjusted.quality - 5
            } else {
                60
            };
            adjusted.method = if adjusted.method >= 1 {
                adjusted.method - 1
            } else {
                0
            };
        } else if capture_duration_ms < 10 && buffer_depth < 10 {
            adjusted.quality = if adjusted.quality <= 88 {
                adjusted.quality + 2
            } else {
                90
            };
            adjusted.method = if adjusted.method <= 3 {
                adjusted.method + 1
            } else {
                4
            };
        }
        adjusted
    }
}

/// The drift-free frame period for a target rate, in microseconds.
pub fn frame_interval_micros(target_fps: u32) -> (r: u64)
    requires
        target_fps >= 1,
    ensures
        r == 1000000int / target_fps as int,
{
    1000000u64 / (target_fps as u64)
}

/// The next deadline of the fixed-period capture clock: pacing sleeps only
/// the residual time to this deadline each tick, so timing drift does not
/// accumulate.
pub fn next_deadline_micros(deadline_us: u64, interval_us: u64) -> (r: u64)
    ensures
        r == sat_u64(deadline_us + interval_us),
{
    deadline_us.saturating_add(interval_us)
}

/// Builder for the streaming pipeline.
pub struct StreamingPipelineBuilder {
    config: StreamingConfig,
}

impl StreamingPipelineBuilder {
    /// The configuration assembled so far.
    pub closed spec fn spec_config(self) -> StreamingConfig {
        self.config
    }

    /// Create a new builder with the default configuration.
    pub fn new() -> (b: StreamingPipelineBuilder)
        ensures
            b.spec_config().target_fps == 30,
            b.spec_config().buffer_size == 60,
            b.spec_config().capture_threads == 1,
            b.spec_config().encoding_threads >= 2,
            b.spec_config().adaptive_quality,
            b.spec_config().allow_frame_drop,
            b.spec_config().webp_config == (WebPConfig {
                quality: 75,
                method: 0,
                pass: 1,
                ..WebPConfig::spec_default()
            }),
            b.spec_config().use_zero_copy,
            !b.spec_config().use_gpu,
    {
        StreamingPipelineBuilder { config: StreamingConfig::default() }
    }

    /// Set the target FPS.
    pub fn target_fps(self, fps: u32) -> (b: StreamingPipelineBuilder)
        ensures
            b.spec_config() == (StreamingConfig { target_fps: fps, ..self.spec_config() }),
    {
        let mut b = self;
        b.config.target_fps = fps;
        b
    }

    /// Set the channel capacity.
    pub fn buffer_size(self, size: usize) -> (b: StreamingPipelineBuilder)
        ensures
            b.spec_config() == (StreamingConfig { buffer_size: size, ..self.spec_config() }),
    {
        let mut b = self;
        b.config.buffer_size = size;
        b
    }

    /// Set the number of capture threads.
    pub fn capture_threads(self, count: usize) -> (b: StreamingPipelineBuilder)
        ensures
            b.spec_config() == (StreamingConfig { capture_threads: count, ..self.spec_config() }),
    {
        let mut b = self;
        b.config.capture_threads = count;
        b
    }

    /// Set the number of encoding threads.
    pub fn encoding_threads(self, count: usize) -> (b: StreamingPipelineBuilder)
        ensures
            b.spec_config() == (StreamingConfig { encoding_threads: count, ..self.spec_config() }),
    {
        let mut b = self;
        b.config.encoding_threads = count;
        b
    }

    /// Enable adaptive quality.
    pub fn adaptive_quality(self, enabled: bool) -> (b: StreamingPipelineBuilder)
        ensures
            b.spec_config() == (StreamingConfig {
                adaptive_quality: enabled,
                ..self.spec_config()
            }),
    {
        let mut b = self;
        b.config.adaptive_quality = enabled;
        b
    }

    /// Enable frame dropping.
    pub fn allow_frame_drop(self, enabled: bool) -> (b: StreamingPipelineBuilder)
        ensures
            b.spec_config() == (StreamingConfig {
                allow_frame_drop: enabled,
                ..self.spec_config()
            }),
    {
        let mut b = self;
        b.config.allow_frame_drop = enabled;
        b
    }

    /// Set the encoder configuration.
    pub fn webp_config(self, config: WebPConfig) -> (b: StreamingPipelineBuilder)
        ensures
            b.spec_config() == (StreamingConfig { webp_config: config, ..self.spec_config() }),
    {
        let mut b = self;
        b.config.webp_config = config;
        b
    }

    /// Enable zero-copy capture.
    pub fn use_zero_copy(self, enabled: bool) -> (b: StreamingPipelineBuilder)
        ensures
            b.spec_config() == (StreamingConfig { use_zero_copy: enabled, ..self.spec_config() }),
    {
        let mut b = self;
        b.config.use_zero_copy = enabled;
        b
    }

    /// Enable GPU encoding.
    pub fn use_gpu(self, enabled: bool) -> (b: StreamingPipelineBuilder)
        ensures
            b.spec_config() == (StreamingConfig { use_gpu: enabled, ..self.spec_config() }),
    {
        let mut b = self;
        b.config.use_gpu = enabled;
        b
    }

    /// Build the pipeline around a capture capability.
    pub fn build<C: ScreenCapture>(self, capturer: C) -> (p: StreamingPipeline<C>)
        ensures
            !p.spec_running(),
            p.spec_config() == self.spec_config(),
            p.spec_stats() == StreamingStats::spec_default(),
            p.spec_frame_counter() == 0,
    {
        StreamingPipeline::new(capturer, self.config)
    }
}

impl Default for StreamingPipelineBuilder {
    /// Same as `new`.
    fn default() -> StreamingPipelineBuilder {
        StreamingPipelineBuilder::new()
    }
}

} // verus!
