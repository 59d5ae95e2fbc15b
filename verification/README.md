# nrf-esb

Enhanced ShockBurst for the radio of the nRF52840, verified with Verus.

`src/` decides everything the driver does. Its functions take what was read from the
hardware as plain values, and return the steps (`ops::Op`) to carry out:

- `packet`: the packet as it lies in RAM;
- `config`, `setup`: the settings, and the words that set up the radio for them;
- `radio`: the driver, with its packet identifiers;
- `exchange`: sending a packet until it is acknowledged;
- `interrupt`: the interrupt handler, and what transfers publish for it;
- `disable`: switching the radio off from any state;
- `transfer`: what all transfers share;
- `clock`: deadlines, in ticks of the embassy clock;
- `regs`: the register fields, set and read with `embassy_nrf::pac`;
- `bits`: reversing the order of bits;
- `laws`: what holds of the driver as a whole.

`app/` is the driver on the chip: it carries out the steps, waits, and takes the
interrupts. `tests/` runs the library on concrete values.
