# Retain

Retain is a spectral filter: it keeps only the frequency bins with the
largest magnitudes in each window of a signal, or, with the complement
switch, removes exactly those.

## Layout

- `src/` is the verified library (Verus):
  - `window_size.rs`, `window_type.rs`: the window sizes and window types,
    their labels, bytes and conversions.
  - `window_function.rs`: how a stream is cut into frames by each window
    type (the samples kept from one frame for the next, the number of
    samples still needed) and the overlap-add buffer.
  - `windowed_fft.rs`: the sample side of a windowed short-time transform:
    samples in, frames out, transformed frames back, samples out.
  - `retain.rs`: the choice of the bins to keep, with the largest
    magnitudes first, and the zeroing of the others.
  - `magnitude.rs`: keys that order magnitudes as IEEE 754 orders them.
  - `params.rs`: the parameter state shared between threads, and the saved
    state.
  - `settings.rs`, `messages.rs`: what the audio thread must update when the
    window size or type changes.
- `app/` is the CLAP plugin around the library: the host glue, the egui
  window, and the floating-point signal path (window coefficients and the
  real FFT).
- `tests/` exercises the library.
