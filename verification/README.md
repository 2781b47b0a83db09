# rawler (verified core)

Illuminant bookkeeping and the integer geometry of rotated Fuji sensors from
a raw image decoder, written in Verus.

- `src/imgop/xyz.rs`: the `Illuminant` enum, its `LightSource` tag values
  (`TryFrom<u16>`, `From<Illuminant> for u16`), its names (`new_from_str`),
  its colour temperatures, and the choice of the two calibration
  illuminants that bracket an as-shot temperature estimate.
- `src/imgop/fuji_rotate.rs`: the size of the upright image recovered from a
  45-degree rotated sensor (`fuji_calc_dimension`, an exact integer
  `floor(n * sqrt(2))`), and the per-pixel sampling decision of the rotation,
  which only ever names pixels inside the source image.
- `src/text.rs`: string comparison and decimal formatting for the error
  messages.
- `app/lib.rs`: the floating-point parts (chromaticity conversions, the
  iterative temperature estimate, bilinear resampling) around the library.
