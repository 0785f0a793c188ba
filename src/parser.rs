use vstd::prelude::*;

use crate::error::{ScaleError, ScaleResult};
use crate::reader::{ByteBuffer, ScaleReading, ScaleStatus};
use crate::weight::{Weight, WeightUnit};

verus! {

const UNIT_BYTE_KILOGRAMS: u8 = 3;
const UNIT_BYTE_OUNCES: u8 = 11;
const UNIT_BYTE_POUNDS: u8 = 12;

/// Fixed-point steps in one hundredth of a unit, the resolution of a report.
pub const STEPS_PER_HUNDREDTH: i64 = 1_000_000;

/// The status that a status byte stands for. Bytes 0, 2 and 4 all mean
/// stable; an unknown byte is a fault.
pub open spec fn status_of(byte: u8) -> ScaleStatus {
    if byte == 0 || byte == 2 || byte == 4 {
        ScaleStatus::Stable
    } else if byte == 3 {
        ScaleStatus::InMotion
    } else if byte == 5 {
        ScaleStatus::UnderZero
    } else if byte == 6 {
        ScaleStatus::OverWeight
    } else if byte == 7 {
        ScaleStatus::RequiresCalibration
    } else if byte == 8 {
        ScaleStatus::RequiresTaring
    } else {
        ScaleStatus::Fault
    }
}

/// The unit that a unit byte stands for, if any.
pub open spec fn unit_of(byte: u8) -> Option<WeightUnit> {
    if byte == 3 {
        Some(WeightUnit::Kilograms)
    } else if byte == 11 {
        Some(WeightUnit::Ounces)
    } else if byte == 12 {
        Some(WeightUnit::Pounds)
    } else {
        None
    }
}

/// Whether a reading in this status carries its weight.
pub open spec fn weight_trusted(status: ScaleStatus) -> bool {
    !(status == ScaleStatus::UnderZero || status == ScaleStatus::NotConnected
        || status == ScaleStatus::RequiresCalibration || status == ScaleStatus::RequiresTaring)
}

/// The weight in a report's two weight bytes: a little-endian count of
/// hundredths, in fixed-point steps.
pub open spec fn weight_steps(lsb: u8, msb: u8) -> int {
    (lsb + 256 * msb) * STEPS_PER_HUNDREDTH
}

/// What a six-byte report decodes to.
pub open spec fn parse_spec(bytes: Seq<u8>) -> ScaleResult<ScaleReading> {
    match unit_of(bytes[2]) {
        None => Err(ScaleError::ParseError),
        Some(unit) => {
            let status = status_of(bytes[1]);
            Ok(ScaleReading {
                report_id: bytes[0],
                status,
                data_scaling: bytes[3],
                weight: if weight_trusted(status) {
                    Some(Weight { unit, value: weight_steps(bytes[4], bytes[5]) as i64 })
                } else {
                    None
                },
            })
        },
    }
}

/// Decodes a status byte.
pub fn status_from_byte(byte: u8) -> (r: ScaleStatus)
    ensures
        r == status_of(byte),
{
    match byte {
        0 | 2 | 4 => ScaleStatus::Stable,
        1 => ScaleStatus::Fault,
        3 => ScaleStatus::InMotion,
        5 => ScaleStatus::UnderZero,
        6 => ScaleStatus::OverWeight,
        7 => ScaleStatus::RequiresCalibration,
        8 => ScaleStatus::RequiresTaring,
        _ => ScaleStatus::Fault,
    }
}

/// Decodes a unit byte; an unknown unit makes the report meaningless.
pub fn unit_from_byte(byte: u8) -> (r: ScaleResult<WeightUnit>)
    ensures
        match unit_of(byte) {
            Some(unit) => r == Ok::<WeightUnit, ScaleError>(unit),
            None => r == Err::<WeightUnit, ScaleError>(ScaleError::ParseError),
        },
{
    if byte == UNIT_BYTE_KILOGRAMS {
        Ok(WeightUnit::Kilograms)
    } else if byte == UNIT_BYTE_OUNCES {
        Ok(WeightUnit::Ounces)
    } else if byte == UNIT_BYTE_POUNDS {
        Ok(WeightUnit::Pounds)
    } else {
        Err(ScaleError::ParseError)
    }
}

/// Decodes the weight bytes of a report in the unit of its unit byte.
pub fn weight_from_bytes(lsb: u8, msb: u8, unit_byte: u8) -> (r: ScaleResult<Weight>)
    ensures
        match unit_of(unit_byte) {
            Some(unit) => r == Ok::<Weight, ScaleError>(
                Weight { unit, value: weight_steps(lsb, msb) as i64 },
            ),
            None => r == Err::<Weight, ScaleError>(ScaleError::ParseError),
        },
        r is Ok ==> r->Ok_0.value == weight_steps(lsb, msb),
{
    let unit = match unit_from_byte(unit_byte) {
        Ok(unit) => unit,
        Err(e) => return Err(e),
    };
    let hundredths = lsb as i64 + 256 * msb as i64;
    Ok(Weight::from(hundredths * STEPS_PER_HUNDREDTH, unit))
}

/// Decodes a six-byte report `[report_id, status, unit, data_scaling,
/// weight_lsb, weight_msb]`. Fails only on an unknown unit byte; the weight
/// is present exactly when the status does not disqualify it.
pub fn parse_input_stream(bytes: ByteBuffer) -> (r: ScaleResult<ScaleReading>)
    ensures
        r == parse_spec(bytes@),
        r is Err <==> unit_of(bytes@[2]) is None,
        r is Ok ==> (r->Ok_0.weight is Some <==> weight_trusted(r->Ok_0.status)),
{
    let status = status_from_byte(bytes[1]);
    let correct_weight = !matches!(
        status,
        ScaleStatus::UnderZero | ScaleStatus::NotConnected | ScaleStatus::RequiresCalibration
            | ScaleStatus::RequiresTaring
    );
    let weight = match weight_from_bytes(bytes[4], bytes[5], bytes[2]) {
        Ok(w) => w,
        Err(e) => return Err(e),
    };
    Ok(ScaleReading {
        report_id: bytes[0],
        status,
        data_scaling: bytes[3],
        weight: if correct_weight { Some(weight) } else { None },
    })
}

} // verus!
