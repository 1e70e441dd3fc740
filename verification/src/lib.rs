//! sRGB rendering of SRM and EBC beer color values: the exact part.
//!
//! *Øl farve* ("beer color") renders SRM and EBC beer color values as sRGB
//! colors, following the spectral model described by A. J. de Lange,
//! "Color," in *Brewing Materials and Processes*, Elsevier, 2016,
//! pp. 199-249. This crate holds what of it is exact: the tabulated CIE
//! reference data, the checks on the inputs with their messages, and the
//! `#rrggbb` notation of an 8-bit color.

pub mod cie;
pub mod error;
pub mod hex;

pub use cie::{cie_sample, sample_wavelength_nm, CieSample, SAMPLE_COUNT};
pub use error::{check_inputs, error_message, ErrorKind};
pub use hex::rgb8_to_hex;
