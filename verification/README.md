# qorvo_blinky

Logic of the Qorvo DWM3001CDK firmware (nRF52833 with a DW3110 ultra
wideband radio and a LIS2DH12 accelerometer), verified with Verus.

- `src/` is the verified library:
  - `accel`: accelerometer register bytes and raw-to-milli-g conversion;
  - `ema`: the exponential moving average of ranges, with its laws over
    sequences of samples;
  - `ultrawideband`: antenna delays from OTP; `transport`: frame sizes;
  - `ultrawideband::ranging`: 40-bit device-time arithmetic and the
    double-sided two-way ranging formula (`math`), the frame format
    (`message`), and the decisions of both sides of an exchange as state
    machines (`initiator`, `responder`).
- `tests/` runs the library on concrete values.
- `app/` is the firmware around it: board wiring, the radio driver and the
  I2C bus, and the async loops of the three programs. It performs the radio
  work and feeds the radio's events to the library's state machines.
