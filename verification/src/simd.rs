//! Pixel-format conversion: channel-order swaps and alpha removal.
//!
//! Every transformation is the verified scalar strategy, chosen once at
//! construction; buffers whose length is not a whole multiple of the pixel
//! stride have only their complete pixels processed and the trailing bytes
//! left untouched (an explicit policy, not an error).

use vstd::prelude::*;

verus! {

use crate::clock::{instant_now, millis_since};

/// One byte of the result of swapping bytes 0 and 2 inside every complete
/// `group`-byte pixel of `s` (meaningful for `group >= 3`). Bytes past the
/// last complete pixel are unchanged.
pub open spec fn swap_rb_byte(s: Seq<u8>, group: int, i: int) -> u8 {
    if i < (s.len() as int / group) * group {
        if i % group == 0 {
            s[i + 2]
        } else if i % group == 2 {
            s[i - 2]
        } else {
            s[i]
        }
    } else {
        s[i]
    }
}

/// The buffer with bytes 0 and 2 swapped inside every complete `group`-byte
/// pixel (meaningful for `group >= 3`).
pub open spec fn swap_rb(s: Seq<u8>, group: int) -> Seq<u8> {
    Seq::new(s.len(), |i: int| swap_rb_byte(s, group, i))
}

/// The destination after copying the first three bytes of every complete
/// 4-byte source pixel to consecutive 3-byte groups; destination bytes past
/// the written region are unchanged.
pub open spec fn drop_alpha(src: Seq<u8>, dst: Seq<u8>) -> Seq<u8> {
    Seq::new(
        dst.len(),
        |j: int|
            if j < 3 * (src.len() as int / 4) {
                src[(j / 3) * 4 + j % 3]
            } else {
                dst[j]
            },
    )
}

/// Pixel-format converter with a single execution strategy fixed at
/// construction. Vector-instruction strategies live outside the verified
/// core, so this converter always carries the scalar strategy; its behaviour
/// is stated exactly by `swap_rb` and `drop_alpha`.
pub struct SimdConverter {}

impl SimdConverter {
    /// Create a new converter; the strategy is fixed here and reused for the
    /// instance's lifetime.
    pub fn new() -> (c: SimdConverter) {
        SimdConverter {  }
    }

    /// Swap the blue and red channels of every complete 4-byte pixel,
    /// converting BGRA to RGBA in place. Its own inverse.
    pub fn convert_bgra_to_rgba(&self, data: &mut Vec<u8>)
        ensures
            final(data)@ == swap_rb(old(data)@, 4),
    {
        let n: usize = data.len();
        let groups: usize = n / 4;
        let mut g: usize = 0;
        while g < groups
            invariant
                data@.len() == n,
                n == old(data)@.len(),
                groups == n as int / 4,
                g <= groups,
                forall|i: int|
                    0 <= i < g * 4 ==> data@[i] == swap_rb_byte(old(data)@, 4, i),
                forall|i: int| g * 4 <= i < n ==> data@[i] == old(data)@[i],
            decreases groups - g,
        {
            let base: usize = g * 4;
            proof {
                assert(base + 4 <= n);
                assert(base % 4 == 0);
            }
            let b: u8 = data[base];
            let r: u8 = data[base + 2];
            data[base] = r;
            data[base + 2] = b;
            proof {
                assert(forall|i: int|
                    0 <= i < (g + 1) * 4 ==> data@[i] == swap_rb_byte(old(data)@, 4, i)) by {
                    assert(base == g * 4);
                    assert((base + 1) % 4 == 1 && (base + 2) % 4 == 2 && (base + 3) % 4 == 3);
                };
            }
            g = g + 1;
        }
        proof {
            assert(final(data)@ =~= swap_rb(old(data)@, 4));
        }
    }

    /// Swap the blue and red channels of every complete 3-byte pixel,
    /// converting BGR to RGB in place. Its own inverse.
    pub fn convert_bgr_to_rgb(&self, data: &mut Vec<u8>)
        ensures
            final(data)@ == swap_rb(old(data)@, 3),
    {
        let n: usize = data.len();
        let groups: usize = n / 3;
        let mut g: usize = 0;
        while g < groups
            invariant
                data@.len() == n,
                n == old(data)@.len(),
                groups == n as int / 3,
                g <= groups,
                forall|i: int|
                    0 <= i < g * 3 ==> data@[i] == swap_rb_byte(old(data)@, 3, i),
                forall|i: int| g * 3 <= i < n ==> data@[i] == old(data)@[i],
            decreases groups - g,
        {
            let base: usize = g * 3;
            proof {
                assert(base + 3 <= n);
                assert(base % 3 == 0);
            }
            let b: u8 = data[base];
            let r: u8 = data[base + 2];
            data[base] = r;
            data[base + 2] = b;
            proof {
                assert(forall|i: int|
                    0 <= i < (g + 1) * 3 ==> data@[i] == swap_rb_byte(old(data)@, 3, i)) by {
                    assert(base == g * 3);
                    assert((base + 1) % 3 == 1 && (base + 2) % 3 == 2);
                };
            }
            g = g + 1;
        }
        proof {
            assert(final(data)@ =~= swap_rb(old(data)@, 3));
        }
    }

    /// Drop the alpha channel: write 3 output bytes for every complete 4-byte
    /// input pixel, in source order, leaving the rest of `dst` unchanged.
    pub fn convert_rgba_to_rgb(&self, src: &Vec<u8>, dst: &mut Vec<u8>)
        requires
            old(dst)@.len() >= 3 * (src@.len() / 4),
        ensures
            final(dst)@ == drop_alpha(src@, old(dst)@),
    {
        let n: usize = src.len();
        let m: usize = dst.len();
        let pixels: usize = n / 4;
        let mut g: usize = 0;
        while g < pixels
            invariant
                src@.len() == n,
                dst@.len() == m,
                m == old(dst)@.len(),
                pixels == n as int / 4,
                m >= 3 * pixels,
                g <= pixels,
                forall|j: int| 0 <= j < g * 3 ==> dst@[j] == src@[(j / 3) * 4 + j % 3],
                forall|j: int| g * 3 <= j < m ==> dst@[j] == old(dst)@[j],
            decreases pixels - g,
        {
            let src_base: usize = g * 4;
            let dst_base: usize = g * 3;
            proof {
                assert(src_base + 4 <= n);
                assert(dst_base + 3 <= m);
                assert(dst_base % 3 == 0);
            }
            dst[dst_base] = src[src_base];
            dst[dst_base + 1] = src[src_base + 1];
            dst[dst_base + 2] = src[src_base + 2];
            proof {
                assert(forall|j: int|
                    0 <= j < (g + 1) * 3 ==> dst@[j] == src@[(j / 3) * 4 + j % 3]) by {
                    assert(dst_base == g * 3);
                    assert((dst_base + 1) % 3 == 1 && (dst_base + 2) % 3 == 2);
                    assert((dst_base as int) / 3 == g && ((dst_base + 1) as int) / 3 == g && ((
                    dst_base + 2) as int) / 3 == g);
                };
            }
            g = g + 1;
        }
        proof {
            assert(final(dst)@ =~= drop_alpha(src@, old(dst)@));
        }
    }

    /// Describe the detected instruction sets of this converter's strategy.
    pub fn capabilities(&self) -> (s: String)
        ensures
            s@ == "None (scalar)"@,
    {
        "None (scalar)".to_owned()
    }

    /// Measure the average wall-clock milliseconds of one in-place conversion
    /// of a `size`-byte test pattern, over 100 runs. The reading depends on
    /// the machine, so no value is promised.
    pub fn benchmark_conversion(&self, size: usize) -> u64 {
        let mut data: Vec<u8> = Vec::new();
        let mut i: usize = 0;
        while i < size
            invariant
                data@.len() == i,
                i <= size,
            decreases size - i,
        {
            data.push((i % 256) as u8);
            i = i + 1;
        }
        let start = instant_now();
        let mut run: usize = 0;
        while run < 100
            invariant
                run <= 100,
            decreases 100 - run,
        {
            self.convert_bgra_to_rgba(&mut data);
            run = run + 1;
        }
        millis_since(&start) / 100
    }
}

impl Default for SimdConverter {
    /// Same as `new`.
    fn default() -> SimdConverter {
        SimdConverter::new()
    }
}

/// Swapping channels twice restores the original buffer: for any buffer whose
/// length is a multiple of 4, `convert_bgra_to_rgba` applied twice is the
/// identity.
pub proof fn lemma_swap_rb_involution(s: Seq<u8>)
    requires
        s.len() % 4 == 0,
    ensures
        swap_rb(swap_rb(s, 4), 4) == s,
{
    let t = swap_rb(s, 4);
    assert(t.len() == s.len());
    assert forall|i: int| 0 <= i < s.len() implies swap_rb(t, 4)[i] == s[i] by {
        assert(t.len() as int / 4 * 4 == s.len() as int / 4 * 4);
        if i < (s.len() as int / 4) * 4 {
            if i % 4 == 0 {
                assert((i + 2) % 4 == 2);
                assert(t[i + 2] == s[i]);
            } else if i % 4 == 2 {
                assert((i - 2) % 4 == 0);
                assert(t[i - 2] == s[i]);
            } else {
                assert(t[i] == s[i]);
            }
        } else {
            assert(t[i] == s[i]);
        }
    };
    assert(swap_rb(swap_rb(s, 4), 4) =~= s);
}

} // verus!
