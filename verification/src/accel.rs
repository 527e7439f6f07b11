//! Register maps, flags, and configuration for the LIS2DH12 accelerometer.
use vstd::prelude::*;
use crate::{trunc_div, lemma_trunc_div_monotonic, lemma_trunc_div_odd, lemma_trunc_div_bounds};

verus! {

/// I2C device address (SA0 tied high).
pub const ADDR: u8 = 0x19;

/// `CTRL_REG1`: output data rate, low-power enable, per-axis enables.
pub const CTRL_REG1: u8 = 0x20;

/// `CTRL_REG3`: interrupt-source routing to the INT1 pin.
pub const CTRL_REG3: u8 = 0x22;

/// `CTRL_REG4`: block data update, full-scale, high-resolution.
pub const CTRL_REG4: u8 = 0x23;

/// `STATUS_REG`: new-data and overrun flags.
pub const STATUS_REG: u8 = 0x27;

/// `OUT_X_L`: first of the six output bytes.
pub const OUT_X_L: u8 = 0x28;

/// Auto-increment flag for multi-byte reads.
pub const AUTO_INCREMENT: u8 = 0b1000_0000;

/// `CTRL_REG1` bit 3: low-power (8-bit) mode enable.
pub const CTRL_REG1_LPEN: u8 = 0b0000_1000;

/// `CTRL_REG1` bits [2:0] (enable x, y, and z output).
pub const CTRL_REG1_XYZ_EN: u8 = 0b0000_0111;

/// `CTRL_REG3` bit 4: route the data-ready signal to INT1 pin.
pub const CTRL_REG3_I1_ZYXDA: u8 = 0b0001_0000;

/// `CTRL_REG4` bit 7: block data update (do not split high and low bytes).
pub const CTRL_REG4_BDU: u8 = 0b1000_0000;

/// `CTRL_REG4` bit 3: high-resolution mode enable (12-bit).
pub const CTRL_REG4_HR: u8 = 0b0000_1000;

/// `STATUS_REG` bit 3: a new sample is ready.
pub const STATUS_ZYXDA: u8 = 0b0000_1000;

/// Full-scale acceleration range.
#[derive(Clone, Copy, Debug, PartialEq, Eq, Structural)]
pub enum FullScale {
    /// +/- 2 g.
    G2,
    /// +/- 4 g.
    G4,
    /// +/- 8 g.
    G8,
    /// +/- 16 g.
    G16,
}

/// Output data rate (`CTRL_REG1` bits 4 through 7).
#[derive(Clone, Copy, Debug, PartialEq, Eq, Structural)]
pub enum OutputDataRate {
    /// Power-down.
    PowerDown,
    /// 1 Hz.
    Hz1,
    /// 10 Hz.
    Hz10,
    /// 25 Hz.
    Hz25,
    /// 50 Hz.
    Hz50,
    /// 100 Hz.
    Hz100,
    /// 200 Hz.
    Hz200,
    /// 400 Hz.
    Hz400,
    /// 1344 Hz.
    Hz1344,
}

/// Output resolution, spanning `CTRL_REG1` `LPen` and `CTRL_REG4` HR.
#[derive(Clone, Copy, Debug, PartialEq, Eq, Structural)]
pub enum Resolution {
    /// Low-power mode, 8-bit output (`LPen` = 1, HR = 0).
    Bits8,
    /// Normal mode, 10-bit output (`LPen` = 0, HR = 0).
    Bits10,
    /// High-resolution mode, 12-bit output (`LPen` = 0, HR = 1).
    Bits12,
}

/// Accelerometer configuration that sets the control-register bytes.
#[derive(Clone, Copy, Debug, PartialEq, Eq, Structural)]
pub struct Config {
    /// Output data rate.
    pub data_rate: OutputDataRate,
    /// Full-scale range.
    pub full_scale: FullScale,
    /// Output resolution.
    pub resolution: Resolution,
}

/// The full-scale field of `CTRL_REG4` (bits 4 and 5).
pub open spec fn spec_full_scale_bits(f: FullScale) -> u8 {
    match f {
        FullScale::G2 => 0b0000_0000,
        FullScale::G4 => 0b0001_0000,
        FullScale::G8 => 0b0010_0000,
        FullScale::G16 => 0b0011_0000,
    }
}

/// Milli-g of a raw axis word at a full-scale range, truncated toward zero.
pub open spec fn spec_milli_g(f: FullScale, raw: int) -> int {
    match f {
        FullScale::G2 => trunc_div(raw, 16),
        FullScale::G4 => trunc_div(raw, 8),
        FullScale::G8 => trunc_div(raw, 4),
        FullScale::G16 => trunc_div(raw * 3, 4),
    }
}

/// The data-rate field of `CTRL_REG1` (bits 4 through 7).
pub open spec fn spec_data_rate_bits(r: OutputDataRate) -> u8 {
    match r {
        OutputDataRate::PowerDown => 0b0000_0000,
        OutputDataRate::Hz1 => 0b0001_0000,
        OutputDataRate::Hz10 => 0b0010_0000,
        OutputDataRate::Hz25 => 0b0011_0000,
        OutputDataRate::Hz50 => 0b0100_0000,
        OutputDataRate::Hz100 => 0b0101_0000,
        OutputDataRate::Hz200 => 0b0110_0000,
        OutputDataRate::Hz400 => 0b0111_0000,
        OutputDataRate::Hz1344 => 0b1001_0000,
    }
}

/// The `CTRL_REG4` HR bit of a resolution.
pub open spec fn spec_hr_bit(r: Resolution) -> u8 {
    match r {
        Resolution::Bits12 => CTRL_REG4_HR,
        _ => 0,
    }
}

/// The `CTRL_REG1` `LPen` bit of a resolution.
pub open spec fn spec_lpen_bit(r: Resolution) -> u8 {
    match r {
        Resolution::Bits8 => CTRL_REG1_LPEN,
        _ => 0,
    }
}

/// The `CTRL_REG1` byte of a configuration.
pub open spec fn spec_ctrl_reg1(c: Config) -> u8 {
    spec_data_rate_bits(c.data_rate) | spec_lpen_bit(c.resolution) | CTRL_REG1_XYZ_EN
}

/// The `CTRL_REG4` byte of a configuration.
pub open spec fn spec_ctrl_reg4(c: Config) -> u8 {
    CTRL_REG4_BDU | spec_full_scale_bits(c.full_scale) | spec_hr_bit(c.resolution)
}

impl FullScale {
    /// The full-scale field, `CTRL_REG4` bits 4 and 5.
    pub fn bits(self) -> (r: u8)
        ensures
            r == spec_full_scale_bits(self),
    {
        match self {
            Self::G2 => 0b0000_0000,
            Self::G4 => 0b0001_0000,
            Self::G8 => 0b0010_0000,
            Self::G16 => 0b0011_0000,
        }
    }

    /// Convert a raw axis word to milli-g at the given range.
    pub fn milli_g(self, raw: i16) -> (r: i32)
        ensures
            r == spec_milli_g(self, raw as int),
    {
        let raw = raw as i32;
        match self {
            Self::G2 => raw / 16,
            Self::G4 => raw / 8,
            Self::G8 => raw / 4,
            Self::G16 => raw * 3 / 4,
        }
    }
}

impl Default for FullScale {
    fn default() -> (r: Self)
        ensures
            r == FullScale::G2,
    {
        FullScale::G2
    }
}

impl OutputDataRate {
    /// The data-rate field, `CTRL_REG1` bits 4 through 7.
    pub fn bits(self) -> (r: u8)
        ensures
            r == spec_data_rate_bits(self),
    {
        match self {
            Self::PowerDown => 0b0000_0000,
            Self::Hz1 => 0b0001_0000,
            Self::Hz10 => 0b0010_0000,
            Self::Hz25 => 0b0011_0000,
            Self::Hz50 => 0b0100_0000,
            Self::Hz100 => 0b0101_0000,
            Self::Hz200 => 0b0110_0000,
            Self::Hz400 => 0b0111_0000,
            Self::Hz1344 => 0b1001_0000,
        }
    }
}

impl Default for OutputDataRate {
    fn default() -> (r: Self)
        ensures
            r == OutputDataRate::Hz10,
    {
        OutputDataRate::Hz10
    }
}

impl Resolution {
    /// The `CTRL_REG4` HR bit for the resolution.
    pub fn hr_bit(self) -> (r: u8)
        ensures
            r == spec_hr_bit(self),
    {
        match self {
            Self::Bits12 => CTRL_REG4_HR,
            Self::Bits8 | Self::Bits10 => 0,
        }
    }

    /// The `CTRL_REG1` `LPen` bit for the resolution.
    pub fn lpen_bit(self) -> (r: u8)
        ensures
            r == spec_lpen_bit(self),
    {
        match self {
            Self::Bits8 => CTRL_REG1_LPEN,
            Self::Bits10 | Self::Bits12 => 0,
        }
    }
}

impl Default for Resolution {
    fn default() -> (r: Self)
        ensures
            r == Resolution::Bits10,
    {
        Resolution::Bits10
    }
}

impl Config {
    /// The `CTRL_REG1` byte: `ODR` + `LPen` + all three axes enabled.
    pub fn ctrl_reg1(self) -> (r: u8)
        ensures
            r == spec_ctrl_reg1(self),
    {
        self.data_rate.bits() | self.resolution.lpen_bit() | CTRL_REG1_XYZ_EN
    }

    /// The `CTRL_REG4` byte: block data + full-scale + HR bit.
    pub fn ctrl_reg4(self) -> (r: u8)
        ensures
            r == spec_ctrl_reg4(self),
    {
        CTRL_REG4_BDU | self.full_scale.bits() | self.resolution.hr_bit()
    }

    /// Convert a raw axis word to milli-g.
    pub fn milli_g(self, raw: i16) -> (r: i32)
        ensures
            r == spec_milli_g(self.full_scale, raw as int),
    {
        self.full_scale.milli_g(raw)
    }
}

/// The two's-complement axis word of a little-endian byte pair.
pub open spec fn spec_axis_word(low: u8, high: u8) -> int {
    let unsigned = high as int * 256 + low as int;
    if unsigned >= 0x8000 {
        unsigned - 0x1_0000
    } else {
        unsigned
    }
}

/// The raw axis word from its low and high output bytes.
pub fn axis_word(low: u8, high: u8) -> (r: i16)
    ensures
        r == spec_axis_word(low, high),
{
    let unsigned = ((high as u16) << 8) | (low as u16);
    assert(unsigned == high as int * 256 + low as int) by (bit_vector)
        requires
            unsigned == ((high as u16) << 8) | (low as u16),
    ;
    let r = unsigned as i16;
    assert((unsigned >= 0x8000 ==> r == unsigned - 0x1_0000) && (unsigned < 0x8000 ==> r == unsigned))
        by (bit_vector)
        requires
            r == unsigned as i16,
    ;
    r
}

impl Config {
    /// Convert the six output bytes (X, Y, Z; low byte first) to milli-g.
    pub fn sample_milli_g(self, sample: [u8; 6]) -> (r: (i32, i32, i32))
        ensures
            r.0 == spec_milli_g(self.full_scale, spec_axis_word(sample[0], sample[1])),
            r.1 == spec_milli_g(self.full_scale, spec_axis_word(sample[2], sample[3])),
            r.2 == spec_milli_g(self.full_scale, spec_axis_word(sample[4], sample[5])),
    {
        let x = axis_word(sample[0], sample[1]);
        let y = axis_word(sample[2], sample[3]);
        let z = axis_word(sample[4], sample[5]);
        (self.milli_g(x), self.milli_g(y), self.milli_g(z))
    }
}

impl Default for Config {
    fn default() -> (r: Self)
        ensures
            r == (Config {
                data_rate: OutputDataRate::Hz10,
                full_scale: FullScale::G2,
                resolution: Resolution::Bits10,
            }),
    {
        Config {
            data_rate: OutputDataRate::default(),
            full_scale: FullScale::default(),
            resolution: Resolution::default(),
        }
    }
}


/// Register byte layout: a four-bit field above bit 3 and a flag at bit 3
/// over the low three bits, and a two-bit field at bits 4 and 5 with flags
/// at bits 7 and 3.
proof fn lemma_register_layout(odr: u8, lpen: u8, fs: u8, hr: u8)
    by (bit_vector)
    requires
        odr & 0x0f == 0,
        lpen == 0 || lpen == 8,
        fs & 0xcf == 0,
        hr == 0 || hr == 8,
    ensures
        (odr | lpen | 7) & 0xf0 == odr,
        (odr | lpen | 7) & 8 == lpen,
        (odr | lpen | 7) & 7 == 7,
        (0x80 | fs | hr) & 0x30 == fs,
        (0x80 | fs | hr) & 8 == hr,
        (0x80 | fs | hr) & 0x80 == 0x80,
        (0x80 | fs | hr) & 0x47 == 0,
{
}

/// The field values each lie within their field.
proof fn lemma_field_values(c: Config)
    ensures
        spec_data_rate_bits(c.data_rate) & 0x0f == 0,
        spec_full_scale_bits(c.full_scale) & 0xcf == 0,
{
    let odr = spec_data_rate_bits(c.data_rate);
    let fs = spec_full_scale_bits(c.full_scale);
    assert(odr & 0x0f == 0) by (bit_vector)
        requires
            odr == 0 || odr == 0x10 || odr == 0x20 || odr == 0x30 || odr == 0x40 || odr == 0x50
                || odr == 0x60 || odr == 0x70 || odr == 0x90,
    ;
    assert(fs & 0xcf == 0) by (bit_vector)
        requires
            fs == 0 || fs == 0x10 || fs == 0x20 || fs == 0x30,
    ;
}

/// `CTRL_REG1` holds the data rate in bits 4 through 7, the `LPen` flag
/// exactly for 8-bit resolution, and all three axis enables.
pub proof fn lemma_ctrl_reg1_fields(c: Config)
    ensures
        spec_ctrl_reg1(c) & 0xf0 == spec_data_rate_bits(c.data_rate),
        (spec_ctrl_reg1(c) & CTRL_REG1_LPEN != 0) == (c.resolution == Resolution::Bits8),
        spec_ctrl_reg1(c) & CTRL_REG1_XYZ_EN == CTRL_REG1_XYZ_EN,
{
    lemma_field_values(c);
    lemma_register_layout(
        spec_data_rate_bits(c.data_rate),
        spec_lpen_bit(c.resolution),
        spec_full_scale_bits(c.full_scale),
        spec_hr_bit(c.resolution),
    );
}

/// `CTRL_REG4` holds block data update, the full scale in bits 4 and 5,
/// the HR flag exactly for 12-bit resolution, and nothing else.
pub proof fn lemma_ctrl_reg4_fields(c: Config)
    ensures
        spec_ctrl_reg4(c) & CTRL_REG4_BDU == CTRL_REG4_BDU,
        spec_ctrl_reg4(c) & 0x30 == spec_full_scale_bits(c.full_scale),
        (spec_ctrl_reg4(c) & CTRL_REG4_HR != 0) == (c.resolution == Resolution::Bits12),
        spec_ctrl_reg4(c) & 0x47 == 0,
{
    lemma_field_values(c);
    lemma_register_layout(
        spec_data_rate_bits(c.data_rate),
        spec_lpen_bit(c.resolution),
        spec_full_scale_bits(c.full_scale),
        spec_hr_bit(c.resolution),
    );
}

/// Low-power and high-resolution mode are never enabled together.
pub proof fn lemma_lpen_hr_exclusive(c: Config)
    ensures
        !(spec_ctrl_reg1(c) & CTRL_REG1_LPEN != 0 && spec_ctrl_reg4(c) & CTRL_REG4_HR != 0),
{
    lemma_ctrl_reg1_fields(c);
    lemma_ctrl_reg4_fields(c);
}

/// The two control-register bytes determine the configuration: distinct
/// configurations program the device differently.
pub proof fn lemma_config_from_registers(a: Config, b: Config)
    requires
        spec_ctrl_reg1(a) == spec_ctrl_reg1(b),
        spec_ctrl_reg4(a) == spec_ctrl_reg4(b),
    ensures
        a == b,
{
    lemma_ctrl_reg1_fields(a);
    lemma_ctrl_reg1_fields(b);
    lemma_ctrl_reg4_fields(a);
    lemma_ctrl_reg4_fields(b);
}

/// A larger raw word never reads as less acceleration.
pub proof fn lemma_milli_g_monotonic(f: FullScale, raw1: int, raw2: int)
    requires
        raw1 <= raw2,
    ensures
        spec_milli_g(f, raw1) <= spec_milli_g(f, raw2),
{
    match f {
        FullScale::G2 => lemma_trunc_div_monotonic(raw1, raw2, 16),
        FullScale::G4 => lemma_trunc_div_monotonic(raw1, raw2, 8),
        FullScale::G8 => lemma_trunc_div_monotonic(raw1, raw2, 4),
        FullScale::G16 => lemma_trunc_div_monotonic(raw1 * 3, raw2 * 3, 4),
    }
}

/// Opposite raw words read as opposite accelerations.
pub proof fn lemma_milli_g_odd(f: FullScale, raw: int)
    ensures
        spec_milli_g(f, -raw) == -spec_milli_g(f, raw),
{
    match f {
        FullScale::G2 => lemma_trunc_div_odd(raw, 16),
        FullScale::G4 => lemma_trunc_div_odd(raw, 8),
        FullScale::G8 => lemma_trunc_div_odd(raw, 4),
        FullScale::G16 => {
            assert(-raw * 3 == -(raw * 3));
            lemma_trunc_div_odd(raw * 3, 4);
        },
    }
}


/// A raw word converts at the range's sensitivity, 1/16, 1/8, 1/4 or 3/4 mg
/// per digit for +/-2, 4, 8 or 16 g, rounded toward zero and never clamped:
/// the result `r` satisfies `den * r <= raw * num < den * (r + 1)` for a
/// non-negative product, and the mirror image for a negative one.
pub proof fn lemma_milli_g_sensitivity(f: FullScale, raw: int)
    ensures
        ({
            let (num, den) = match f {
                FullScale::G2 => (1int, 16int),
                FullScale::G4 => (1int, 8int),
                FullScale::G8 => (1int, 4int),
                FullScale::G16 => (3int, 4int),
            };
            let scaled = raw * num;
            let r = spec_milli_g(f, raw);
            &&& (scaled >= 0 ==> 0 <= r && den * r <= scaled < den * (r + 1))
            &&& (scaled < 0 ==> r <= 0 && den * (-r) <= -scaled < den * (-r + 1))
        }),
{
    match f {
        FullScale::G2 => lemma_trunc_div_bounds(raw, 16),
        FullScale::G4 => lemma_trunc_div_bounds(raw, 8),
        FullScale::G8 => lemma_trunc_div_bounds(raw, 4),
        FullScale::G16 => lemma_trunc_div_bounds(raw * 3, 4),
    }
}

} // verus!
