# nanometers

The buffering and framing logic of an audio meter application, written in
Verus.

- `src/` is the verified library: the bounded ring buffer, the overlapping
  spectrogram frames, the half-overlapping spectrum buffers, the oscilloscope
  cycle buffer, the block counters of the waveform, loudness and vectorscope
  meters, the four-signal sample buffers, reading the plugin's sample ring,
  splitting interleaved input into channels, the hue sectors of the colour
  conversions, the module sequence and its drag-and-drop moves, and the meter
  options with their defaults.
- `tests/` runs the library on concrete values.
- `app/` holds what runs beside it: audio capture, an audio callback for the
  spectrum, spectrogram, oscilloscope and loudness meters, the
  floating-point filters, windows and colour maths, and writing the settings
  file. The drawing of the meters is not part of this code base.
