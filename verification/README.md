# olfarve

sRGB rendering of SRM and EBC beer color values, following A. J. de Lange's
spectral model (CIE 1931 2 degree observer, illuminant D65).

Layout:

- `src/` — the verified library (Verus): the CIE reference tables as exact
  integers (`cie`), the checks on the inputs and their messages (`error`),
  and the `#rrggbb` notation of an 8-bit triplet with its laws (`hex`).
- `app/` — the floating-point model (spectral integration, gamma encoding,
  quantization) and the public `SrgbColor`, `Error`, `absorption_to_srgb`,
  `srm_to_srgb` and `ebc_to_srgb`, built on the library.
- `tests/` — tests of the library.
