//! The colorimetric reference data behind every conversion.
//!
//! Two CIE datasets tabulated together from 380 nm to 780 nm in 5 nm steps:
//!
//! * Color matching functions of the CIE 1931 2 degree standard colorimetric
//!   observer, standardized as ISO/CIE 11664-1:2019. Values from
//!   <https://cie.co.at/datatable/cie-1931-colour-matching-functions-2-degree-observer>.
//! * Relative spectral power distribution of CIE standard illuminant D65,
//!   standardized as ISO/CIE 11664-2:2022. Values from
//!   <https://cie.co.at/datatable/cie-standard-illuminant-d65>.
//!
//! The published values are decimal numbers with at most six (color matching
//! functions) and five (illuminant) fractional digits. They are stored here as
//! exact integers in units of [`CMF_SCALE`] and [`D65_SCALE`]: a value `v`
//! stands for `v / CMF_SCALE` (or `v / D65_SCALE`). Both scales are powers of
//! ten below 2^53, so dividing the stored integer by its scale in double
//! precision yields exactly the double nearest to the published decimal.

use vstd::prelude::*;

verus! {

/// Number of wavelength samples in [`CIE_SAMPLES`].
pub const SAMPLE_COUNT: usize = 81;

/// Wavelength of the first sample in [`CIE_SAMPLES`], in nanometers.
pub const FIRST_WAVELENGTH_NM: u32 = 380;

/// Distance between two consecutive samples in [`CIE_SAMPLES`], in nanometers.
pub const WAVELENGTH_STEP_NM: u32 = 5;

/// Wavelength of the last sample in [`CIE_SAMPLES`], in nanometers.
pub const LAST_WAVELENGTH_NM: u32 = 780;

/// Denominator of the stored color matching function values (millionths).
pub const CMF_SCALE: u32 = 1000000;

/// Denominator of the stored illuminant values (hundred-thousandths).
pub const D65_SCALE: u32 = 100000;

/// One wavelength sample of the CIE 1931 observer and the D65 illuminant.
///
/// Field names follow CIE notation: `x_bar`, `y_bar` and `z_bar` are the
/// color matching functions x(lambda), y(lambda) and z(lambda), in units of
/// 1 / [`CMF_SCALE`]; `s_d65` is the relative spectral power distribution
/// S(lambda) of illuminant D65, in units of 1 / [`D65_SCALE`].
#[derive(Clone, Copy, Debug, PartialEq, Eq, Structural)]
pub struct CieSample {
    pub x_bar: u32,
    pub y_bar: u32,
    pub z_bar: u32,
    pub s_d65: u32,
}

/// Colorimetric samples from 380 nm to 780 nm in 5 nm increments, row `i`
/// belonging to the wavelength `380 + 5 * i` nm. Each row is
/// `(x_bar, y_bar, z_bar, s_d65)` in the units of [`CieSample`].
pub const CIE_ROWS: [(u32, u32, u32, u32); 81] = [
    (   1368,      39,    6450,  4997550),
    (   2236,      64,   10550,  5231180),
    (   4243,     120,   20050,  5464820),
    (   7650,     217,   36210,  6870150),
    (  14310,     396,   67850,  8275490),
    (  23190,     640,  110200,  8712040),
    (  43510,    1210,  207400,  9148600),
    (  77630,    2180,  371300,  9245890),
    ( 134380,    4000,  645600,  9343180),
    ( 214770,    7300, 1039050,  9005700),
    ( 283900,   11600, 1385600,  8668230),
    ( 328500,   16840, 1622960,  9577360),
    ( 348280,   23000, 1747060, 10486500),
    ( 348060,   29800, 1782600, 11093600),
    ( 336200,   38000, 1772110, 11700800),
    ( 318700,   48000, 1744100, 11741000),
    ( 290800,   60000, 1669200, 11781200),
    ( 251100,   73900, 1528100, 11633600),
    ( 195360,   90980, 1287640, 11486100),
    ( 142100,  112600, 1041900, 11539200),
    (  95640,  139020,  812950, 11592300),
    (  57950,  169300,  616200, 11236700),
    (  32010,  208020,  465180, 10881100),
    (  14700,  258600,  353300, 10908200),
    (   4900,  323000,  272000, 10935400),
    (   2400,  407300,  212300, 10857800),
    (   9300,  503000,  158200, 10780200),
    (  29100,  608200,  111700, 10629600),
    (  63270,  710000,   78250, 10479000),
    ( 109600,  793200,   57250, 10623900),
    ( 165500,  862000,   42160, 10768900),
    ( 225750,  914850,   29840, 10604700),
    ( 290400,  954000,   20300, 10440500),
    ( 359700,  980300,   13400, 10422500),
    ( 433450,  994950,    8750, 10404600),
    ( 512050, 1000000,    5750, 10202300),
    ( 594500,  995000,    3900, 10000000),
    ( 678400,  978600,    2750,  9816710),
    ( 762100,  952000,    2100,  9633420),
    ( 842500,  915400,    1800,  9606110),
    ( 916300,  870000,    1650,  9578800),
    ( 978600,  816300,    1400,  9223680),
    (1026300,  757000,    1100,  8868560),
    (1056700,  694900,    1000,  8934590),
    (1062200,  631000,     800,  9000620),
    (1045600,  566800,     600,  8980260),
    (1002600,  503000,     340,  8959910),
    ( 938400,  441200,     240,  8864890),
    ( 854450,  381000,     190,  8769871),
    ( 751400,  321000,     100,  8549360),
    ( 642400,  265000,      50,  8328860),
    ( 541900,  217000,      30,  8349390),
    ( 447900,  175000,      20,  8369920),
    ( 360800,  138200,      10,  8186300),
    ( 283500,  107000,       0,  8002680),
    ( 218700,   81600,       0,  8012070),
    ( 164900,   61000,       0,  8021460),
    ( 121200,   44580,       0,  8124620),
    (  87400,   32000,       0,  8227780),
    (  63600,   23200,       0,  8028100),
    (  46770,   17000,       0,  7828420),
    (  32900,   11920,       0,  7400270),
    (  22700,    8210,       0,  6972130),
    (  15840,    5723,       0,  7066520),
    (  11359,    4102,       0,  7160910),
    (   8111,    2929,       0,  7297900),
    (   5790,    2091,       0,  7434900),
    (   4109,    1484,       0,  6797650),
    (   2899,    1047,       0,  6160400),
    (   2049,     740,       0,  6574480),
    (   1440,     520,       0,  6988560),
    (   1000,     361,       0,  7248630),
    (    690,     249,       0,  7508700),
    (    476,     172,       0,  6933980),
    (    332,     120,       0,  6359270),
    (    235,      85,       0,  5500540),
    (    166,      60,       0,  4641820),
    (    117,      42,       0,  5661180),
    (     83,      30,       0,  6680540),
    (     59,      21,       0,  6509410),
    (     42,      15,       0,  6338280),
];

/// The sample at row `i` of [`CIE_ROWS`], as a [`CieSample`].
pub open spec fn spec_cie_sample(i: int) -> CieSample {
    let row = CIE_ROWS@[i];
    CieSample { x_bar: row.0, y_bar: row.1, z_bar: row.2, s_d65: row.3 }
}

/// The wavelength of sample `i`, in nanometers.
pub open spec fn spec_wavelength_nm(i: int) -> int {
    FIRST_WAVELENGTH_NM + WAVELENGTH_STEP_NM * i
}

/// Returns the colorimetric sample at index `i` (0 for 380 nm, 80 for 780 nm).
pub fn cie_sample(i: usize) -> (sample: CieSample)
    requires
        i < SAMPLE_COUNT,
    ensures
        sample == spec_cie_sample(i as int),
{
    let row = CIE_ROWS[i];
    CieSample { x_bar: row.0, y_bar: row.1, z_bar: row.2, s_d65: row.3 }
}

/// Returns the wavelength of sample `i`, in nanometers.
pub fn sample_wavelength_nm(i: usize) -> (nm: u32)
    requires
        i < SAMPLE_COUNT,
    ensures
        nm == spec_wavelength_nm(i as int),
        FIRST_WAVELENGTH_NM <= nm <= LAST_WAVELENGTH_NM,
{
    FIRST_WAVELENGTH_NM + WAVELENGTH_STEP_NM * (i as u32)
}

/// The table covers the visible range exactly: its first sample lies at
/// 380 nm, its last at 780 nm, and consecutive samples are 5 nm apart.
pub proof fn lemma_samples_span_visible_range()
    ensures
        CIE_ROWS@.len() == SAMPLE_COUNT,
        spec_wavelength_nm(0) == FIRST_WAVELENGTH_NM,
        spec_wavelength_nm(SAMPLE_COUNT - 1) == LAST_WAVELENGTH_NM,
        forall|i: int|
            0 <= i < SAMPLE_COUNT - 1 ==> #[trigger] spec_wavelength_nm(i + 1) == spec_wavelength_nm(
                i,
            ) + WAVELENGTH_STEP_NM,
{
}

} // verus!
