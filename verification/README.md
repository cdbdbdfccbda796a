# argus

Verified logic of the Argus flight-computer board.

- `src/rocket_error.rs`: the rocket error types (`RocketErrorType`,
  `RocketError`, `ErrorContext`), their conversions, the attaching of a
  context, and the description of each error.
- `src/adc.rs`: the chip-select writes that pick one of the two ADS126x
  converters sharing the SPI bus.
- `src/adc_init.rs`: the bring-up of a converter as a plan of operations and a
  state machine that is told the outcome of each operation and says what to do
  next, with the laws that the plan stops the conversions around every
  register access and that a run of successful operations performs the whole
  plan.
- `app/`: the hardware driver that performs the operations over SPI and GPIO,
  the defmt-loggable copies of the error types, and the floating-point
  thermocouple conversion.
