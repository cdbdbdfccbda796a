//! Verified logic of the Argus flight-computer board: the rocket error
//! types shared by the firmware, and the sequencing of the two ADS126x
//! analog front ends (chip select and power-up configuration).

pub mod rocket_error;
pub mod adc;
pub mod adc_init;
