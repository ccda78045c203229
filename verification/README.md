# mandala_smart_book

The verified core of a Raspberry Pi smart-book display: a clock with CO2,
temperature and air-quality readings, a GR10-30 gesture sensor, an LED strip
that plays light-show animations, and a shuffled photo gallery.

- `src/` is the library, verified with Verus:
  - `gr10_30` drives the GR10-30 gesture sensor as a state machine over bus
    transfers (register encoding, start-up sequence, polling);
  - `light` holds light-show images, samples them for the LEDs and selects
    the show that plays;
  - `gallery` rotates through a shuffled list of pictures;
  - `display` renders the date, time and sensor texts;
  - `dashboard` decides when to redraw and when to change the screen brightness;
  - `sensors` decides when to start, poll and restart the gesture sensor.
- `app/` is the program around it: the iced user interface, the I2C, SPI and
  Wayland I/O, timers, and the floating-point conversions.
- `tests/` exercises the library on concrete values.
