//! The texts that a presentation layer shows for a frame of registers.

use vstd::prelude::*;
use vstd::string::*;

use crate::text::{decimal, digit_char, to_decimal};

verus! {

/// The offset of the measured value in a frame.
pub const SENSOR_VALUE_OFFSET: usize = 2;

/// The offset of the output current in a frame, in hundredths of a milliampere.
pub const SENSOR_MA_OFFSET: usize = 3;

/// A number of hundredths as a decimal fraction with two places.
pub open spec fn hundredths(value: nat) -> Seq<char> {
    decimal(value / 100) + "."@ + seq![digit_char(value / 10 % 10), digit_char(value % 10)]
}

/// The measured value of the frame, as the sensor gives it.
pub fn sanitize_sensor_value(values: &[u16]) -> (text: String)
    requires
        values@.len() > SENSOR_VALUE_OFFSET,
    ensures
        text@ == decimal(values@[SENSOR_VALUE_OFFSET as int] as nat),
{
    to_decimal(values[SENSOR_VALUE_OFFSET])
}

/// The output current of the frame in milliamperes, with two places.
pub fn sensor_ma(values: &[u16]) -> (text: String)
    requires
        values@.len() > SENSOR_MA_OFFSET,
    ensures
        text@ == hundredths(values@[SENSOR_MA_OFFSET as int] as nat),
{
    let value = values[SENSOR_MA_OFFSET];
    let mut text = to_decimal(value / 100);
    let tenths = to_decimal(value / 10 % 10);
    let ones = to_decimal(value % 10);
    text.append(".");
    text.append(tenths.as_str());
    text.append(ones.as_str());
    proof {
        assert(text@ =~= hundredths(value as nat));
    }
    text
}

} // verus!
