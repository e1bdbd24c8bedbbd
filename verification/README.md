# canshunt

Firmware logic of the CANShunt board, a USB-CAN interface that also measures
eight shunt currents and voltages and shows them on LEDs.

- `src/` is the verified library (Verus):
  - `routing`: the vendor control requests on USB endpoint zero that get and
    set whether USB-CAN is bridged to the physical CAN bus; setup packet
    decoding.
  - `flash`: the persisted flash sections (node configuration, object
    values) and what is restored from them.
  - `tasks`: the steps of the button, CAN housekeeping and LED tasks.
  - `led`: the blink pattern of the current-indicator LEDs.
  - `adc`: the ADC register layout and the channel plan.
- `tests/` exercises the library on concrete values.
- `app/` is the firmware around it: clocks, pins, ADC registers, the flash
  driver, the async executor, and the floating-point scaling of readings.
