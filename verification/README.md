# lcd

Firmware logic for a two-page audio spectrum display on a 320 x 240 LCD: a
tone page, where a rotary encoder picks a test-tone frequency shown as a
single peak, and an analyser page, which shows the measured spectrum of the
audio input on a logarithmic frequency axis.

- `src/` is the verified library (Verus):
  - `control.rs`: encoder and button state machine, frequency limits, pages;
  - `draw.rs`: drawing commands as plain values;
  - `plot.rs`: layout, palette, the level and frequency tables of the grid
    and labels, the full curve and the differential redraw of changed columns;
  - `analysis.rs`: the analysed bin range, which columns the bins land on and
    where each column takes its level from;
  - `pcm1808.rs`: pin roles, receiver frame settings and checked DMA reads
    for the PCM1808 converter on SAI1.
- `app/` is the firmware around it: hardware set-up, the main loop, the
  floating-point signal processing (including the mapping of levels and
  frequencies to pixels) and the rendering of the drawing commands. The
  commands come in vectors, so the firmware keeps a heap.
- `tests/` runs the library on concrete values.
