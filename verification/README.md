# tk_pie

Firmware logic of a DIY split keyboard and of its layout editor, written in Verus: the
functions in `src/` carry contracts that Verus proves. The one exception is the pair of
coordinates in `src/atomics.rs`, whose value lives in an atomic shared between tasks and has
no specification; its packing into one word is proved.

## Layout

- `src/keys.rs`, `src/button.rs`, `src/layer.rs`, `src/event*`: the layout model — USB HID
  key codes, what a switch does (keys, modifiers, mod-taps, compose chains, layer buttons),
  and the switch and button events.
- `src/keypress_handler.rs`: the mod-tap state machine that turns switch events into key and
  modifier presses; the queue of undecided presses is a `heapless::Deque`.
- `src/usb/`: the n-key-rollover keyboard report and the report bookkeeping that never lets a
  release overtake its press; the parser of the editor's messages on the USB serial line.
- `src/hemicom*`, `src/uart.rs`, `src/rx_buffer.rs`: the packet framing between the two
  halves (header, CRC-16/ARC checks, sequence numbers that filter resent packets).
- `src/keyboard*`: which button a switch acts as on the current layer, layer arithmetic, the
  lights under the switches and their power states.
- `src/editor/`: the editor's matrix of layers, key assignment, udev property parsing and the
  reading of the keyboard's serial messages.
- `src/rgb.rs`, `src/util.rs`, `src/ws2812.rs`, `src/led.rs`, `src/atomics*`: colors, the color
  wheel, msgpack strings, the LED clock divider, blink patterns, packed coordinates.
- `app/`: what runs around the library — serde/msgpck copies of its types, the async tasks
  that wait on timers and serial lines, the floating-point LED animations, and the editor's
  device access.
- `tests/`: tests of the library on concrete values.

Not here: the editor's graphical interface (its panels and application window), the board's
pin and peripheral setup, the firmware's entry point and its loggers. They are drawing,
hardware and logging code around the logic above.
