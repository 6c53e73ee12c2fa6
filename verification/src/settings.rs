//! The per-camera parameter record and its packed uniform layout.

use vstd::prelude::*;

verus! {

/// Bytes taken by the thirteen 32-bit fields of a record.
pub const DATA_SIZE: usize = 52;

/// Bytes taken by one packed record. The two-component `wind` aligns the
/// record to 8 bytes, so the data is followed by four bytes of padding.
pub const PACKED_SIZE: usize = 56;

/// Bit pattern of 0.35.
pub const DEFAULT_INTENSITY: u32 = 0x3EB3_3333;

/// Bit pattern of 0.65.
pub const DEFAULT_THRESHOLD: u32 = 0x3F26_6666;

/// Bit pattern of 96.
pub const DEFAULT_STREAK_LENGTH_PX: u32 = 0x42C0_0000;

/// Bit pattern of 0.55.
pub const DEFAULT_RAIN_DENSITY: u32 = 0x3F0C_CCCD;

/// Bit pattern of 0.1.
pub const DEFAULT_WIND_X: u32 = 0x3DCC_CCCD;

/// Bit pattern of 1.
pub const DEFAULT_WIND_Y: u32 = 0x3F80_0000;

/// Bit pattern of 1.2.
pub const DEFAULT_SPEED: u32 = 0x3F99_999A;

/// Bit pattern of 0.
pub const DEFAULT_TIME: u32 = 0;

/// Bit pattern of 3.
pub const DEFAULT_PATTERN_SCALE: u32 = 0x4040_0000;

/// Bit pattern of 0.75.
pub const DEFAULT_MASK_THICKNESS_PX: u32 = 0x3F40_0000;

/// Bit pattern of 1.
pub const DEFAULT_SNAP_TO_PIXEL: u32 = 0x3F80_0000;

/// Bit pattern of 8.
pub const DEFAULT_TAIL_QUANT_STEPS: u32 = 0x4100_0000;

/// Bit pattern of 1.
pub const DEFAULT_VIEW_ANGLE_FACTOR: u32 = 0x3F80_0000;

/// The four bytes of a 32-bit word, least significant first.
pub open spec fn le_bytes(w: u32) -> Seq<u8> {
    seq![
        (w % 256) as u8,
        ((w / 256) % 256) as u8,
        ((w / 65536) % 256) as u8,
        (w / 16777216) as u8,
    ]
}

/// The 32-bit word whose bytes, least significant first, are `b[at..at + 4]`.
pub open spec fn le_word(b: Seq<u8>, at: int) -> u32
    recommends
        0 <= at,
        at + 4 <= b.len(),
{
    (b[at] as int + 256 * (b[at + 1] as int) + 65536 * (b[at + 2] as int) + 16777216 * (b[at + 3] as int)) as u32
}

/// Decoding the bytes of a word gives the word back, wherever they lie.
pub proof fn lemma_le_word_of_le_bytes(b: Seq<u8>, at: int, w: u32)
    requires
        0 <= at,
        at + 4 <= b.len(),
        b.subrange(at, at + 4) == le_bytes(w),
    ensures
        le_word(b, at) == w,
{
    let s = b.subrange(at, at + 4);
    assert(s[0] == b[at]);
    assert(s[1] == b[at + 1]);
    assert(s[2] == b[at + 2]);
    assert(s[3] == b[at + 3]);
}

/// Two components of a 2D vector, each a binary32 bit pattern.
#[derive(Clone, Copy, Debug, PartialEq, Eq, Structural)]
pub struct Vec2 {
    pub x: u32,
    pub y: u32,
}

impl Vec2 {
    /// The vector with the given components.
    pub fn new(x: u32, y: u32) -> (v: Vec2)
        ensures
            v == (Vec2 { x, y }),
    {
        Vec2 { x, y }
    }
}

/// The knobs of the effect for one camera. Each field is the binary32 bit
/// pattern of its value. `time` and `view_angle_factor` are written by the
/// per-frame update; the rest belong to whoever configures the camera.
#[derive(Clone, Copy, Debug, PartialEq, Eq, Structural)]
pub struct RainGlareSettings {
    pub intensity: u32,
    pub threshold: u32,
    pub streak_length_px: u32,
    pub rain_density: u32,
    pub wind: Vec2,
    pub speed: u32,
    /// Seconds since start-up, as read from the clock this frame.
    pub time: u32,
    pub pattern_scale: u32,
    pub mask_thickness_px: u32,
    pub snap_to_pixel: u32,
    pub tail_quant_steps: u32,
    /// How far the view faces the horizon, from 0 (straight up or down) to 1.
    pub view_angle_factor: u32,
}

impl RainGlareSettings {
    /// The record a camera gets when it enables the effect without overrides.
    pub open spec fn spec_default() -> RainGlareSettings {
        RainGlareSettings {
            intensity: DEFAULT_INTENSITY,
            threshold: DEFAULT_THRESHOLD,
            streak_length_px: DEFAULT_STREAK_LENGTH_PX,
            rain_density: DEFAULT_RAIN_DENSITY,
            wind: Vec2 { x: DEFAULT_WIND_X, y: DEFAULT_WIND_Y },
            speed: DEFAULT_SPEED,
            time: DEFAULT_TIME,
            pattern_scale: DEFAULT_PATTERN_SCALE,
            mask_thickness_px: DEFAULT_MASK_THICKNESS_PX,
            snap_to_pixel: DEFAULT_SNAP_TO_PIXEL,
            tail_quant_steps: DEFAULT_TAIL_QUANT_STEPS,
            view_angle_factor: DEFAULT_VIEW_ANGLE_FACTOR,
        }
    }

    /// The packed record: the thirteen words in declaration order, each least
    /// significant byte first, then four zero bytes.
    #[verifier::opaque]
    pub open spec fn packed(self) -> Seq<u8> {
        le_bytes(self.intensity) + le_bytes(self.threshold) + le_bytes(self.streak_length_px)
            + le_bytes(self.rain_density) + le_bytes(self.wind.x) + le_bytes(self.wind.y)
            + le_bytes(self.speed) + le_bytes(self.time) + le_bytes(self.pattern_scale)
            + le_bytes(self.mask_thickness_px) + le_bytes(self.snap_to_pixel)
            + le_bytes(self.tail_quant_steps) + le_bytes(self.view_angle_factor)
            + seq![0u8, 0u8, 0u8, 0u8]
    }

    /// The record whose words lie at `b[at..at + 52]`.
    pub open spec fn decoded(b: Seq<u8>, at: int) -> RainGlareSettings
        recommends
            0 <= at,
            at + DATA_SIZE <= b.len(),
    {
        RainGlareSettings {
            intensity: le_word(b, at),
            threshold: le_word(b, at + 4),
            streak_length_px: le_word(b, at + 8),
            rain_density: le_word(b, at + 12),
            wind: Vec2 { x: le_word(b, at + 16), y: le_word(b, at + 20) },
            speed: le_word(b, at + 24),
            time: le_word(b, at + 28),
            pattern_scale: le_word(b, at + 32),
            mask_thickness_px: le_word(b, at + 36),
            snap_to_pixel: le_word(b, at + 40),
            tail_quant_steps: le_word(b, at + 44),
            view_angle_factor: le_word(b, at + 48),
        }
    }

    /// What `unpack` returns: the record held by exactly one packed record's
    /// worth of bytes, whatever the padding holds.
    pub open spec fn unpacked(b: Seq<u8>) -> Option<RainGlareSettings> {
        if b.len() == PACKED_SIZE {
            Some(Self::decoded(b, 0))
        } else {
            None
        }
    }

    /// This record after a frame update that read `elapsed` from the clock and
    /// computed `view_angle_factor` from the camera.
    pub open spec fn advanced(self, elapsed: u32, view_angle_factor: u32) -> RainGlareSettings {
        RainGlareSettings { time: elapsed, view_angle_factor, ..self }
    }
}


/// Appends the four bytes of `w`, least significant first.
fn push_word(buf: &mut Vec<u8>, w: u32)
    ensures
        final(buf)@ == old(buf)@ + le_bytes(w),
{
    buf.push((w % 256) as u8);
    buf.push(((w / 256) % 256) as u8);
    buf.push(((w / 65536) % 256) as u8);
    buf.push((w / 16777216) as u8);
    assert(buf@ =~= old(buf)@ + le_bytes(w));
}

/// Reads the word whose bytes, least significant first, start at `at`.
fn read_word(bytes: &[u8], at: usize) -> (w: u32)
    requires
        at + 4 <= bytes@.len(),
    ensures
        w == le_word(bytes@, at as int),
{
    let b0: u32 = bytes[at] as u32;
    let b1: u32 = bytes[at + 1] as u32;
    let b2: u32 = bytes[at + 2] as u32;
    let b3: u32 = bytes[at + 3] as u32;
    b0 + 256 * b1 + 65536 * b2 + 16777216 * b3
}

impl Default for RainGlareSettings {
    fn default() -> (s: RainGlareSettings)
        ensures
            s == RainGlareSettings::spec_default(),
    {
        RainGlareSettings {
            intensity: DEFAULT_INTENSITY,
            threshold: DEFAULT_THRESHOLD,
            streak_length_px: DEFAULT_STREAK_LENGTH_PX,
            rain_density: DEFAULT_RAIN_DENSITY,
            wind: Vec2::new(DEFAULT_WIND_X, DEFAULT_WIND_Y),
            speed: DEFAULT_SPEED,
            time: DEFAULT_TIME,
            pattern_scale: DEFAULT_PATTERN_SCALE,
            mask_thickness_px: DEFAULT_MASK_THICKNESS_PX,
            snap_to_pixel: DEFAULT_SNAP_TO_PIXEL,
            tail_quant_steps: DEFAULT_TAIL_QUANT_STEPS,
            view_angle_factor: DEFAULT_VIEW_ANGLE_FACTOR,
        }
    }
}

impl RainGlareSettings {
    /// Appends the packed record to `buf`.
    pub fn write_to(&self, buf: &mut Vec<u8>)
        ensures
            final(buf)@ == old(buf)@ + self.packed(),
    {
        push_word(buf, self.intensity);
        push_word(buf, self.threshold);
        push_word(buf, self.streak_length_px);
        push_word(buf, self.rain_density);
        push_word(buf, self.wind.x);
        push_word(buf, self.wind.y);
        push_word(buf, self.speed);
        push_word(buf, self.time);
        push_word(buf, self.pattern_scale);
        push_word(buf, self.mask_thickness_px);
        push_word(buf, self.snap_to_pixel);
        push_word(buf, self.tail_quant_steps);
        push_word(buf, self.view_angle_factor);
        buf.push(0);
        buf.push(0);
        buf.push(0);
        buf.push(0);
        proof {
            reveal(RainGlareSettings::packed);
        }
        assert(buf@ =~= old(buf)@ + self.packed());
    }

    /// The packed record, ready to be copied into a uniform buffer.
    pub fn pack(&self) -> (bytes: Vec<u8>)
        ensures
            bytes@ == self.packed(),
    {
        let mut bytes: Vec<u8> = Vec::new();
        self.write_to(&mut bytes);
        bytes
    }

    /// Reads the record whose words start at `at`.
    pub fn read_from(bytes: &[u8], at: usize) -> (r: Option<RainGlareSettings>)
        ensures
            r == if at + DATA_SIZE <= bytes@.len() {
                Some(RainGlareSettings::decoded(bytes@, at as int))
            } else {
                None
            },
    {
        if bytes.len() < DATA_SIZE || at > bytes.len() - DATA_SIZE {
            return None;
        }
        Some(
            RainGlareSettings {
                intensity: read_word(bytes, at),
                threshold: read_word(bytes, at + 4),
                streak_length_px: read_word(bytes, at + 8),
                rain_density: read_word(bytes, at + 12),
                wind: Vec2::new(read_word(bytes, at + 16), read_word(bytes, at + 20)),
                speed: read_word(bytes, at + 24),
                time: read_word(bytes, at + 28),
                pattern_scale: read_word(bytes, at + 32),
                mask_thickness_px: read_word(bytes, at + 36),
                snap_to_pixel: read_word(bytes, at + 40),
                tail_quant_steps: read_word(bytes, at + 44),
                view_angle_factor: read_word(bytes, at + 48),
            },
        )
    }

    /// Reads a record back from one packed record's worth of bytes; any other
    /// length is refused.
    pub fn unpack(bytes: &[u8]) -> (r: Option<RainGlareSettings>)
        ensures
            r == RainGlareSettings::unpacked(bytes@),
    {
        if bytes.len() != PACKED_SIZE {
            return None;
        }
        RainGlareSettings::read_from(bytes, 0)
    }

    /// Stores this frame's clock reading and view angle factor; the other
    /// fields stay as they are.
    pub fn advance(&mut self, elapsed: u32, view_angle_factor: u32)
        ensures
            *final(self) == old(self).advanced(elapsed, view_angle_factor),
    {
        self.time = elapsed;
        self.view_angle_factor = view_angle_factor;
    }

    /// A packed record is `PACKED_SIZE` bytes long.
    pub proof fn lemma_packed_len(self)
        ensures
            self.packed().len() == PACKED_SIZE,
    {
        reveal(RainGlareSettings::packed);
    }

    /// Wherever a packed record lies in a buffer, decoding at that place
    /// gives the record back, bit for bit.
    pub proof fn lemma_decoded_of_packed(self, b: Seq<u8>, at: int)
        requires
            0 <= at,
            at + PACKED_SIZE <= b.len(),
            b.subrange(at, at + PACKED_SIZE as int) == self.packed(),
        ensures
            RainGlareSettings::decoded(b, at) == self,
    {
        reveal(RainGlareSettings::packed);
        let p = self.packed();
        assert forall|k: int| 0 <= k < PACKED_SIZE implies b[at + k] == #[trigger] p[k] by {
            assert(b.subrange(at, at + PACKED_SIZE as int)[k] == b[at + k]);
        }
        let ws = seq![
            self.intensity,
            self.threshold,
            self.streak_length_px,
            self.rain_density,
            self.wind.x,
            self.wind.y,
            self.speed,
            self.time,
            self.pattern_scale,
            self.mask_thickness_px,
            self.snap_to_pixel,
            self.tail_quant_steps,
            self.view_angle_factor,
        ];
        assert forall|i: int| 0 <= i < 13 implies le_word(b, at + 4 * i) == #[trigger] ws[i] by {
            assert(p.subrange(4 * i, 4 * i + 4) =~= le_bytes(ws[i]));
            assert(b.subrange(at + 4 * i, at + 4 * i + 4) =~= p.subrange(4 * i, 4 * i + 4));
            lemma_le_word_of_le_bytes(b, at + 4 * i, ws[i]);
        }
    }

    /// Packing a record and unpacking the bytes gives the record back, bit
    /// for bit.
    pub proof fn lemma_unpack_pack(self)
        ensures
            RainGlareSettings::unpacked(self.packed()) == Some(self),
    {
        let p = self.packed();
        self.lemma_packed_len();
        assert(p.subrange(0, PACKED_SIZE as int) =~= p);
        self.lemma_decoded_of_packed(p, 0);
    }
}

} // verus!
