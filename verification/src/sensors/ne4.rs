//! The NE4-MOD-BUS sensor: its read-only registers, by name.

use vstd::prelude::*;
use vstd::string::*;

use crate::error::{CommError, ErrorKind, Failure};

verus! {

/// The number of read-only registers of the sensor.
pub const RREG_COUNT: usize = 50;

/// The offset of the customer's device code.
pub const RREG_DEVICE_ID: usize = 0;

/// The offset of the working mode.
pub const RREG_WORK_MODE: usize = 1;

/// The offset of the gas concentration.
pub const RREG_CONCENTRATION_GAS: usize = 2;

/// The offset of the output current.
pub const RREG_OUTPUT_CURRENT: usize = 3;

/// The offset of the board temperature.
pub const RREG_INT_TEMP: usize = 4;

/// The offset of the raw temperature value.
pub const RREG_ADC_TEMP: usize = 40;

/// The offset of the raw potentiometer value.
pub const RREG_ADC_POTI: usize = 41;

/// The offset of the raw sensor value.
pub const RREG_ADC_SENSOR: usize = 42;

/// The offset of the potentiometer's gain.
pub const RREG_AMPLIFICATION_POTI: usize = 43;

/// The offset of the temperature curve's gain.
pub const RREG_AMPLIFICATION_TEMP: usize = 44;

/// The offset of the corrected raw sensor value.
pub const RREG_ADC_SENSOR_CORRECTED: usize = 45;

/// The offset of the computed gas concentration.
pub const RREG_CONCENTRATION_GAS_CALCULATED: usize = 46;

/// The offset of the software date.
pub const RREG_SOFTWARE_DATE: usize = 49;

/// The text that says that a frame has the wrong number of registers.
pub open spec fn wrong_length_text() -> Seq<char> {
    "Falsche Anzahl Register"@
}

/// The sensor's read-only registers as they were read last.
#[derive(Debug)]
pub struct NE4 {
    rreg: Vec<u16>,
}

impl View for NE4 {
    type V = Seq<u16>;

    closed spec fn view(&self) -> Seq<u16> {
        self.rreg@
    }
}

impl NE4 {
    #[verifier::type_invariant]
    spec fn well_formed(self) -> bool {
        self.rreg@.len() == RREG_COUNT
    }

    /// A sensor of which nothing was read yet: every register is zero.
    pub fn new() -> (sensor: NE4)
        ensures
            sensor@ == Seq::new(RREG_COUNT as nat, |i: int| 0u16),
    {
        let mut rreg: Vec<u16> = Vec::new();
        while rreg.len() < RREG_COUNT
            invariant
                rreg@.len() <= RREG_COUNT,
                rreg@ == Seq::new(rreg@.len(), |i: int| 0u16),
            decreases RREG_COUNT - rreg@.len(),
        {
            rreg.push(0);
            assert(rreg@ =~= Seq::new(rreg@.len(), |i: int| 0u16));
        }
        NE4 { rreg }
    }

    /// Takes a frame that the poller published. A frame that has not
    /// exactly as many registers as the sensor is refused, and nothing changes.
    pub fn update(&mut self, frame: Vec<u16>) -> (taken: Result<(), CommError>)
        ensures
            frame@.len() == RREG_COUNT ==> taken is Ok && final(self)@ == frame@,
            frame@.len() != RREG_COUNT ==> final(self)@ == old(self)@ && taken is Err
                && taken->Err_0@ == (Failure {
                kind: ErrorKind::ProtocolError,
                detail: wrong_length_text(),
            }),
    {
        if frame.len() == RREG_COUNT {
            *self = NE4 { rreg: frame };
            Ok(())
        } else {
            Err(
                CommError::new(
                    ErrorKind::ProtocolError,
                    String::from_str("Falsche Anzahl Register"),
                ),
            )
        }
    }

    /// Sets the register at `offset`; `false`, and nothing changes, where
    /// the sensor has no such register.
    pub fn set_register(&mut self, offset: usize, value: u16) -> (set: bool)
        ensures
            set == (offset < RREG_COUNT),
            set ==> final(self)@ == old(self)@.update(offset as int, value),
            !set ==> final(self)@ == old(self)@,
    {
        proof {
            use_type_invariant(&*self);
        }
        if offset < RREG_COUNT {
            let mut rreg: Vec<u16> = Vec::new();
            let mut i: usize = 0;
            while i < RREG_COUNT
                invariant
                    i <= RREG_COUNT,
                    self.rreg@.len() == RREG_COUNT,
                    rreg@ == self.rreg@.take(i as int),
                decreases RREG_COUNT - i,
            {
                rreg.push(self.rreg[i]);
                i = i + 1;
                assert(rreg@ =~= self.rreg@.take(i as int));
            }
            assert(rreg@ =~= self.rreg@);
            rreg.set(offset, value);
            *self = NE4 { rreg };
            true
        } else {
            false
        }
    }

    /// All registers, by offset.
    pub fn registers(&self) -> (rreg: &Vec<u16>)
        ensures
            rreg@ == self@,
            rreg@.len() == RREG_COUNT,
    {
        proof {
            use_type_invariant(self);
        }
        &self.rreg
    }

    /// The register at `offset`, which is one of the constants of this module.
    fn rreg(&self, offset: usize) -> (value: u16)
        requires
            offset < RREG_COUNT,
        ensures
            value == self@[offset as int],
    {
        proof {
            use_type_invariant(self);
        }
        self.rreg[offset]
    }

    /// The customer's device code.
    pub fn device_id(&self) -> (value: u16)
        ensures
            value == self@[RREG_DEVICE_ID as int],
    {
        self.rreg(RREG_DEVICE_ID)
    }

    /// The working mode of the sensor.
    pub fn work_mode(&self) -> (value: u16)
        ensures
            value == self@[RREG_WORK_MODE as int],
    {
        self.rreg(RREG_WORK_MODE)
    }

    /// The gas concentration in ppm.
    pub fn concentration_gas(&self) -> (value: u16)
        ensures
            value == self@[RREG_CONCENTRATION_GAS as int],
    {
        self.rreg(RREG_CONCENTRATION_GAS)
    }

    /// The computed output current in hundredths of a milliampere.
    pub fn output_current(&self) -> (value: u16)
        ensures
            value == self@[RREG_OUTPUT_CURRENT as int],
    {
        self.rreg(RREG_OUTPUT_CURRENT)
    }

    /// The temperature of the board in tenths of a degree Celsius.
    pub fn int_temp(&self) -> (value: u16)
        ensures
            value == self@[RREG_INT_TEMP as int],
    {
        self.rreg(RREG_INT_TEMP)
    }

    /// The raw value of the temperature measurement.
    pub fn adc_temp(&self) -> (value: u16)
        ensures
            value == self@[RREG_ADC_TEMP as int],
    {
        self.rreg(RREG_ADC_TEMP)
    }

    /// The raw value of the potentiometer.
    pub fn adc_poti(&self) -> (value: u16)
        ensures
            value == self@[RREG_ADC_POTI as int],
    {
        self.rreg(RREG_ADC_POTI)
    }

    /// The raw value of the sensor.
    pub fn adc_sensor(&self) -> (value: u16)
        ensures
            value == self@[RREG_ADC_SENSOR as int],
    {
        self.rreg(RREG_ADC_SENSOR)
    }

    /// The gain set by the potentiometer, in hundredths.
    pub fn amplification_poti(&self) -> (value: u16)
        ensures
            value == self@[RREG_AMPLIFICATION_POTI as int],
    {
        self.rreg(RREG_AMPLIFICATION_POTI)
    }

    /// The gain from the temperature curve, in hundredths.
    pub fn amplification_temp(&self) -> (value: u16)
        ensures
            value == self@[RREG_AMPLIFICATION_TEMP as int],
    {
        self.rreg(RREG_AMPLIFICATION_TEMP)
    }

    /// The corrected raw value of the sensor.
    pub fn adc_sensor_corrected(&self) -> (value: u16)
        ensures
            value == self@[RREG_ADC_SENSOR_CORRECTED as int],
    {
        self.rreg(RREG_ADC_SENSOR_CORRECTED)
    }

    /// The computed gas concentration in ppm.
    pub fn concentration_gas_calculated(&self) -> (value: u16)
        ensures
            value == self@[RREG_CONCENTRATION_GAS_CALCULATED as int],
    {
        self.rreg(RREG_CONCENTRATION_GAS_CALCULATED)
    }

    /// The date of the software.
    pub fn software_date(&self) -> (value: u16)
        ensures
            value == self@[RREG_SOFTWARE_DATE as int],
    {
        self.rreg(RREG_SOFTWARE_DATE)
    }

    /// The name of the sensor.
    pub fn to_text(&self) -> (name: String)
        ensures
            name@ == "NE4-MOD-BUS"@,
    {
        String::from_str("NE4-MOD-BUS")
    }
}

} // verus!
