//! The GPU-visible parameter block and its synchronization channel.
//!
//! The block has a fixed, tightly packed layout that must match what the
//! shaders expect for the whole process lifetime: a 4×4 projection
//! matrix (sixteen 32-bit words), the startup resolution (two words),
//! the mouse position (two words), a frame counter (one word), and
//! twelve bytes of padding up to the device's 16-byte alignment —
//! ninety-six bytes in all, little-endian.
//!
//! The projection itself is kept as the exact pair of clamped surface
//! dimensions whose ratio the matrix embodies; the sixteen matrix words
//! are derived from that pair by the caller's floating-point math and
//! carried here opaquely, so the layout and every integer field are
//! verified while the float derivation stays at the boundary.

use vstd::prelude::*;

verus! {

/// Total size of the uniform block, padding included.
pub const UNIFORM_BLOCK_BYTES: usize = 96;

/// Byte offset of the projection matrix inside the block.
pub const PROJ_OFFSET: usize = 0;

/// Byte offset of the resolution pair inside the block.
pub const RES_OFFSET: usize = 64;

/// Byte offset of the mouse pair inside the block.
pub const MOUSE_OFFSET: usize = 72;

/// Byte offset of the frame counter inside the block.
pub const FRAME_COUNTER_OFFSET: usize = 80;

/// Trailing padding that brings the block to a 16-byte multiple.
pub const PADDING_BYTES: usize = 12;

/// The orthographic projection's varying parameters: the clamped
/// surface dimensions. The projection maps `x` over `0..num/den`, `y`
/// over `0..1` and depth over `0..100`, so its aspect ratio is exactly
/// `num / den`.
#[derive(Clone, Copy)]
pub struct Projection {
    pub num: u32,
    pub den: u32,
}

impl Projection {
    /// Both dimensions come clamped, so the ratio is well defined.
    pub open spec fn wf(self) -> bool {
        self.num >= 1 && self.den >= 1
    }
}

/// CPU-side mirror of the uniform block's fields.
#[derive(Clone, Copy)]
pub struct Uniform {
    pub proj: Projection,
    pub res: [u32; 2],
    pub mouse_bits: [u32; 2],
    pub time: u32,
}

/// Little-endian bytes of one 32-bit word.
pub open spec fn u32_le_bytes(x: u32) -> Seq<u8> {
    seq![
        (x & 0xff) as u8,
        ((x >> 8) & 0xff) as u8,
        ((x >> 16) & 0xff) as u8,
        ((x >> 24) & 0xff) as u8,
    ]
}

/// Little-endian bytes of a run of 32-bit words, in order.
pub open spec fn words_le_bytes(words: Seq<u32>) -> Seq<u8>
    decreases words.len(),
{
    if words.len() == 0 {
        Seq::empty()
    } else {
        words_le_bytes(words.drop_last()) + u32_le_bytes(words.last())
    }
}

pub proof fn lemma_words_le_bytes_len(words: Seq<u32>)
    ensures
        words_le_bytes(words).len() == 4 * words.len(),
    decreases words.len(),
{
    if words.len() > 0 {
        lemma_words_le_bytes_len(words.drop_last());
    }
}

/// Appending one word appends its four bytes.
pub proof fn lemma_words_le_bytes_step(words: Seq<u32>, i: int)
    requires
        0 <= i < words.len(),
    ensures
        words_le_bytes(words.take(i + 1)) == words_le_bytes(words.take(i)) + u32_le_bytes(
            words[i],
        ),
{
    assert(words.take(i + 1).drop_last() =~= words.take(i));
    assert(words.take(i + 1).last() == words[i]);
}

/// The whole block, exactly as it crosses to the device: matrix words,
/// resolution, mouse, frame counter, padding zeroes.
pub open spec fn block_bytes(u: Uniform, proj_words: Seq<u32>) -> Seq<u8> {
    words_le_bytes(proj_words) + u32_le_bytes(u.res@[0]) + u32_le_bytes(u.res@[1]) + u32_le_bytes(
        u.mouse_bits@[0],
    ) + u32_le_bytes(u.mouse_bits@[1]) + u32_le_bytes(u.time) + Seq::new(
        PADDING_BYTES as nat,
        |i: int| 0u8,
    )
}

/// The frame counter advances by one each frame and wraps at the top
/// of its 32-bit range.
pub open spec fn wrap_inc(t: u32) -> u32 {
    if t == u32::MAX {
        0u32
    } else {
        (t + 1) as u32
    }
}

/// Append one word's little-endian bytes to a byte vector.
fn push_u32_le(out: &mut Vec<u8>, x: u32)
    ensures
        final(out)@ == old(out)@ + u32_le_bytes(x),
{
    out.push((x & 0xff) as u8);
    out.push(((x >> 8) & 0xff) as u8);
    out.push(((x >> 16) & 0xff) as u8);
    out.push(((x >> 24) & 0xff) as u8);
    assert(out@ =~= old(out)@ + u32_le_bytes(x));
}

impl Uniform {
    pub open spec fn wf(self) -> bool {
        self.proj.wf()
    }

    /// The startup mirror: projection and resolution from the clamped
    /// startup dimensions, mouse at the origin, counter at zero.
    pub open spec fn new_spec(width: u32, height: u32) -> Uniform {
        Uniform {
            proj: Projection { num: width, den: height },
            res: [width, height],
            mouse_bits: [0u32, 0u32],
            time: 0,
        }
    }

    pub fn new(width: u32, height: u32) -> (r: Uniform)
        requires
            width >= 1,
            height >= 1,
        ensures
            r == Uniform::new_spec(width, height),
            r.wf(),
    {
        Uniform {
            proj: Projection { num: width, den: height },
            res: [width, height],
            mouse_bits: [0u32, 0u32],
            time: 0,
        }
    }

    /// Re-derive the projection for new clamped dimensions. The
    /// recorded parameters are exactly the dimensions, so the
    /// projection's aspect ratio is exactly `width / height`; a height
    /// of zero cannot arise here because every caller clamps first.
    pub fn update_proj(&mut self, width: u32, height: u32)
        requires
            width >= 1,
            height >= 1,
        ensures
            *final(self) == (Uniform { proj: Projection { num: width, den: height }, ..*old(self) }),
            final(self).proj.num * height == final(self).proj.den * width,
            final(self).proj.wf(),
    {
        self.proj = Projection { num: width, den: height };
        proof {
            assert(width * height == height * width) by (nonlinear_arith);
        }
    }

    /// Record a new mouse position (the two words carry the caller's
    /// 32-bit encodings of the coordinates).
    pub fn set_mouse(&mut self, x_bits: u32, y_bits: u32)
        ensures
            *final(self) == (Uniform { mouse_bits: [x_bits, y_bits], ..*old(self) }),
    {
        self.mouse_bits = [x_bits, y_bits];
    }

    /// Count one more frame, wrapping at the top of the range.
    pub fn advance_frame(&mut self)
        ensures
            *final(self) == (Uniform { time: wrap_inc(old(self).time), ..*old(self) }),
    {
        if self.time == u32::MAX {
            self.time = 0;
        } else {
            self.time = self.time + 1;
        }
    }

    /// Serialize the whole block, with the given sixteen matrix words
    /// in front, exactly as the device expects it.
    pub fn encode(&self, proj_words: &[u32; 16]) -> (r: Vec<u8>)
        ensures
            r@ == block_bytes(*self, proj_words@),
            r@.len() == UNIFORM_BLOCK_BYTES,
    {
        let mut out: Vec<u8> = Vec::new();
        let mut i: usize = 0;
        assert(proj_words@.take(0) =~= Seq::<u32>::empty());
        while i < 16
            invariant
                i <= 16,
                out@ == words_le_bytes(proj_words@.take(i as int)),
            decreases 16 - i,
        {
            push_u32_le(&mut out, proj_words[i]);
            proof {
                lemma_words_le_bytes_step(proj_words@, i as int);
            }
            i = i + 1;
        }
        assert(proj_words@.take(16) =~= proj_words@);
        push_u32_le(&mut out, self.res[0]);
        push_u32_le(&mut out, self.res[1]);
        push_u32_le(&mut out, self.mouse_bits[0]);
        push_u32_le(&mut out, self.mouse_bits[1]);
        push_u32_le(&mut out, self.time);
        let ghost before_padding = out@;
        let mut j: usize = 0;
        while j < 12
            invariant
                j <= 12,
                out@ == before_padding + Seq::new(j as nat, |k: int| 0u8),
            decreases 12 - j,
        {
            out.push(0u8);
            assert(out@ =~= before_padding + Seq::new((j + 1) as nat, |k: int| 0u8));
            j = j + 1;
        }
        proof {
            lemma_words_le_bytes_len(proj_words@);
        }
        assert(out@ =~= block_bytes(*self, proj_words@));
        out
    }
}

/// Open the channel and serialize the initial block in one step. The
/// device buffer is created holding exactly these bytes, so the two
/// mirrors agree from birth.
pub fn create_uniform_buffer(width: u32, height: u32, proj_words: [u32; 16]) -> (r: (
    UniformChannel,
    Vec<u8>,
))
    requires
        width >= 1,
        height >= 1,
    ensures
        r.0 == UniformChannel::new_spec(width, height, proj_words),
        r.0.wf(),
        r.0.synced(),
        r.1@ == block_bytes(Uniform::new_spec(width, height), proj_words@),
        r.1@.len() == UNIFORM_BLOCK_BYTES,
{
    let channel = UniformChannel::new(width, height, proj_words);
    let bytes = channel.cpu.encode(&channel.proj_words);
    (channel, bytes)
}

/// The synchronization channel: the authoritative CPU-side mirror, the
/// opaque matrix words that go with it, and the device-side copy as of
/// the last flush. No other component writes the device buffer.
pub struct UniformChannel {
    pub cpu: Uniform,
    pub proj_words: [u32; 16],
    pub device: Uniform,
    pub device_words: [u32; 16],
}

impl UniformChannel {
    /// The CPU mirror is well formed; the device copy never lags the
    /// CPU state by more than one frame, which the orchestrator
    /// sharpens to equality at every frame boundary.
    pub open spec fn wf(self) -> bool {
        self.cpu.wf() && self.device.wf()
    }

    /// Both mirrors agree: everything mutated has been flushed.
    pub open spec fn synced(self) -> bool {
        self.device == self.cpu && self.device_words == self.proj_words
    }

    pub open spec fn new_spec(width: u32, height: u32, proj_words: [u32; 16]) -> UniformChannel {
        UniformChannel {
            cpu: Uniform::new_spec(width, height),
            proj_words,
            device: Uniform::new_spec(width, height),
            device_words: proj_words,
        }
    }

    /// Open the channel at startup: the device buffer is created from
    /// the same initial block, so the two mirrors agree from birth.
    pub fn new(width: u32, height: u32, proj_words: [u32; 16]) -> (r: UniformChannel)
        requires
            width >= 1,
            height >= 1,
        ensures
            r == UniformChannel::new_spec(width, height, proj_words),
            r.wf(),
            r.synced(),
    {
        let cpu = Uniform::new(width, height);
        let device = Uniform::new(width, height);
        UniformChannel { cpu, proj_words, device, device_words: proj_words }
    }

    pub open spec fn set_projection_spec(
        self,
        width: u32,
        height: u32,
        proj_words: [u32; 16],
    ) -> UniformChannel {
        UniformChannel {
            cpu: Uniform { proj: Projection { num: width, den: height }, ..self.cpu },
            proj_words,
            ..self
        }
    }

    /// Mutate the CPU mirror's projection; the matching matrix words
    /// derived by the caller travel with it. The device copy is
    /// untouched until the next flush.
    pub fn set_projection(&mut self, width: u32, height: u32, proj_words: [u32; 16])
        requires
            width >= 1,
            height >= 1,
        ensures
            *final(self) == old(self).set_projection_spec(width, height, proj_words),
            final(self).cpu.proj.num * height == final(self).cpu.proj.den * width,
    {
        self.cpu.update_proj(width, height);
        self.proj_words = proj_words;
        proof {
            assert(width * height == height * width) by (nonlinear_arith);
        }
    }

    pub open spec fn advance_frame_spec(self) -> UniformChannel {
        UniformChannel { cpu: Uniform { time: wrap_inc(self.cpu.time), ..self.cpu }, ..self }
    }

    /// Count one more frame on the CPU mirror.
    pub fn advance_frame(&mut self)
        ensures
            *final(self) == old(self).advance_frame_spec(),
    {
        self.cpu.advance_frame();
    }

    pub open spec fn flush_spec(self) -> UniformChannel {
        UniformChannel { device: self.cpu, device_words: self.proj_words, ..self }
    }

    /// Upload the entire block in one transfer, unconditionally: no
    /// dirty-field tracking, correctness over minimal bandwidth. The
    /// returned bytes are what the caller writes to the device buffer;
    /// the device mirror records that they were written.
    pub fn flush(&mut self) -> (r: Vec<u8>)
        ensures
            *final(self) == old(self).flush_spec(),
            final(self).synced(),
            r@ == block_bytes(old(self).cpu, old(self).proj_words@),
            r@.len() == UNIFORM_BLOCK_BYTES,
    {
        let bytes = self.cpu.encode(&self.proj_words);
        self.device = self.cpu;
        self.device_words = self.proj_words;
        bytes
    }
}

} // verus!
