//! Protocol and decoding logic of the I3G4250D 3-axis gyroscope driver.
//!
//! The driver's decisions are pure functions of the bytes the device hands
//! back: the identity gate and the fixed configuration writes of `init_plan`,
//! and the endianness, sign and full-scale interpretation of the six sample
//! bytes in `decode_sample`. The bus transactions that carry those bytes are
//! framed by [`crate::bus`] and performed outside this crate.

use vstd::prelude::*;

verus! {

/// Identity the device reports in its identity register.
pub const SENSOR_ID: u8 = 0xd4;

/// Identity register.
pub const WHO_AM_I: u8 = 0x0f;

/// Output data rate, power mode and per-axis enable bits.
pub const CTRL_REG1: u8 = 0x20;

/// High-pass filter cutoff selection.
pub const CTRL_REG2: u8 = 0x21;

/// Full-scale range and byte-order selection; re-read before every sample.
pub const CTRL_REG4: u8 = 0x23;

/// High-pass filter enable.
pub const CTRL_REG5: u8 = 0x24;

/// Low byte of the x-axis sample.
pub const OUT_X_L: u8 = 0x28;

/// High byte of the x-axis sample.
pub const OUT_X_H: u8 = 0x29;

/// Low byte of the y-axis sample.
pub const OUT_Y_L: u8 = 0x2a;

/// High byte of the y-axis sample.
pub const OUT_Y_H: u8 = 0x2b;

/// Low byte of the z-axis sample.
pub const OUT_Z_L: u8 = 0x2c;

/// High byte of the z-axis sample.
pub const OUT_Z_H: u8 = 0x2d;

/// The one way initialization can fail: the identity register did not report
/// the expected device, so the part on this bus line must not be configured.
#[derive(Clone, Copy, Debug, PartialEq, Eq, Structural)]
pub enum InitError {
    /// The identity register held something other than [`SENSOR_ID`].
    UnexpectedDevice,
}

/// One configuration write: a register and the value to store in it.
#[derive(Clone, Copy, Debug, PartialEq, Eq, Structural)]
pub struct RegWrite {
    /// Register to write.
    pub reg: u8,
    /// Value to store.
    pub value: u8,
}

/// The four configuration writes of a successful initialization, in order:
/// 760 Hz output rate, normal power and all axes enabled; high-pass cutoff;
/// full scale 500 degrees per second; high-pass filter enabled.
pub open spec fn init_write_seq() -> Seq<RegWrite> {
    seq![
        RegWrite { reg: CTRL_REG1, value: 0xff },
        RegWrite { reg: CTRL_REG2, value: 0x00 },
        RegWrite { reg: CTRL_REG4, value: 0x10 },
        RegWrite { reg: CTRL_REG5, value: 0x10 },
    ]
}

/// Identity gate of `init`: given the byte read from the identity register,
/// either refuse the device with no configuration writes at all, or hand back
/// exactly the four writes of [`init_write_seq`], in that order.
pub fn init_plan(identity: u8) -> (r: Result<Vec<RegWrite>, InitError>)
    ensures
        r is Ok <==> identity == SENSOR_ID,
        r matches Ok(writes) ==> writes@ == init_write_seq(),
        r matches Err(e) ==> e == InitError::UnexpectedDevice,
{
    if identity != SENSOR_ID {
        return Err(InitError::UnexpectedDevice);
    }
    let mut writes: Vec<RegWrite> = Vec::new();
    writes.push(RegWrite { reg: CTRL_REG1, value: 0xff });
    writes.push(RegWrite { reg: CTRL_REG2, value: 0x00 });
    writes.push(RegWrite { reg: CTRL_REG4, value: 0x10 });
    writes.push(RegWrite { reg: CTRL_REG5, value: 0x10 });
    proof {
        assert(writes@ =~= init_write_seq());
    }
    Ok(writes)
}

/// Whether bit 6 of the control register asks for the swapped byte order, in
/// which the low-byte register carries the most significant byte.
pub open spec fn byte_swapped(reg4: u8) -> bool {
    reg4 & 0x40 != 0
}

/// The unsigned 16-bit word formed by a most and a least significant byte.
pub open spec fn word_of(msb: u8, lsb: u8) -> int {
    msb * 0x100 + lsb
}

/// Two's-complement reading of an unsigned 16-bit word.
pub open spec fn signed16(word: int) -> int
    recommends
        0 <= word < 0x10000,
{
    if word < 0x8000 {
        word
    } else {
        word - 0x10000
    }
}

/// The signed raw sample assembled from the two data-register bytes: in the
/// plain order the high register is the most significant byte; in the swapped
/// order the low register is.
pub open spec fn raw_value(lo: u8, hi: u8, swapped: bool) -> int {
    if swapped {
        signed16(word_of(lo, hi))
    } else {
        signed16(word_of(hi, lo))
    }
}

/// Reads bit 6 of the control register.
pub fn is_byte_swapped(reg4: u8) -> (swapped: bool)
    ensures
        swapped == byte_swapped(reg4),
{
    (reg4 & 0x40) != 0
}

/// Combines one axis's two register bytes into the signed raw sample.
pub fn combine_raw(lo: u8, hi: u8, swapped: bool) -> (raw: i16)
    ensures
        raw == raw_value(lo, hi, swapped),
{
    let msb: u16 = if swapped { lo as u16 } else { hi as u16 };
    let lsb: u16 = if swapped { hi as u16 } else { lo as u16 };
    let word: u16 = msb * 0x100 + lsb;
    if word < 0x8000 {
        word as i16
    } else {
        ((word - 0x8000) as i16) - 0x7fff - 1
    }
}

/// Sign law: the raw sample is negative exactly when the top bit of the byte
/// acting as most significant is set — a two's-complement reading, never an
/// unsigned wrap — and it always fits in a signed 16-bit value.
pub proof fn lemma_raw_sign(lo: u8, hi: u8, swapped: bool)
    ensures
        raw_value(lo, hi, swapped) < 0 <==> (if swapped { lo } else { hi }) >= 0x80,
        -0x8000 <= raw_value(lo, hi, swapped) < 0x8000,
{
}

/// The full-scale sensitivity selected by bits 5 and 4 of the control
/// register, in hundredths of a millidegree per second per digit. The
/// reserved selection yields 0: every sample then scales to zero, a
/// degenerate but defined outcome, not an error.
pub open spec fn scale_factor(reg4: u8) -> int {
    if reg4 & 0x30 == 0x00 {
        875
    } else if reg4 & 0x30 == 0x10 {
        1750
    } else if reg4 & 0x30 == 0x20 {
        7000
    } else {
        0
    }
}

/// Reads the full-scale sensitivity out of the control register.
pub fn scale_of(reg4: u8) -> (scale: u16)
    ensures
        scale == scale_factor(reg4),
        scale <= 7000,
{
    let selection: u8 = reg4 & 0x30;
    if selection == 0x00 {
        875
    } else if selection == 0x10 {
        1750
    } else if selection == 0x20 {
        7000
    } else {
        0
    }
}

/// Fixed-point conversion of one axis: `raw * scale / 100`, the division
/// truncating toward zero, yielding millidegrees per second.
pub open spec fn scaled_value(raw: int, scale: int) -> int
    recommends
        scale >= 0,
{
    if raw >= 0 {
        (raw * scale) / 100
    } else {
        -((-raw * scale) / 100)
    }
}

/// Applies the fixed-point conversion to one raw axis sample.
pub fn scale_axis(raw: i16, scale: u16) -> (scaled: i32)
    requires
        scale <= 7000,
    ensures
        scaled == scaled_value(raw as int, scale as int),
{
    if raw >= 0 {
        let wide: u32 = raw as u32;
        proof {
            assert(wide * (scale as u32) <= 32767 * 7000) by (nonlinear_arith)
                requires
                    wide <= 32767,
                    scale as u32 <= 7000,
            ;
        }
        let product: u32 = wide * (scale as u32);
        (product / 100) as i32
    } else {
        let magnitude: u32 = (-(raw as i32)) as u32;
        proof {
            assert(magnitude * (scale as u32) <= 32768 * 7000) by (nonlinear_arith)
                requires
                    magnitude <= 32768,
                    scale as u32 <= 7000,
            ;
        }
        let product: u32 = magnitude * (scale as u32);
        -((product / 100) as i32)
    }
}

/// One decoded reading: the angular rate around each axis in millidegrees
/// per second.
#[derive(Clone, Copy, Debug, PartialEq, Eq, Structural)]
pub struct Sample {
    /// Angular rate around the x axis.
    pub x: i32,
    /// Angular rate around the y axis.
    pub y: i32,
    /// Angular rate around the z axis.
    pub z: i32,
}

/// What one axis of a sample decodes to, given the control register that
/// governs byte order and full scale and the axis's two register bytes.
pub open spec fn axis_output(reg4: u8, lo: u8, hi: u8) -> int {
    scaled_value(raw_value(lo, hi, byte_swapped(reg4)), scale_factor(reg4))
}

/// Decodes one full sample from the freshly read control register and the six
/// data-register bytes, low and high byte of each axis in register order.
pub fn decode_sample(reg4: u8, xl: u8, xh: u8, yl: u8, yh: u8, zl: u8, zh: u8) -> (sample: Sample)
    ensures
        sample.x == axis_output(reg4, xl, xh),
        sample.y == axis_output(reg4, yl, yh),
        sample.z == axis_output(reg4, zl, zh),
{
    let swapped = is_byte_swapped(reg4);
    let scale = scale_of(reg4);
    Sample {
        x: scale_axis(combine_raw(xl, xh, swapped), scale),
        y: scale_axis(combine_raw(yl, yh, swapped), scale),
        z: scale_axis(combine_raw(zl, zh, swapped), scale),
    }
}

} // verus!
