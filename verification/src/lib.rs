//! Conversion of numeric measurements between units of one of two closed
//! families (temperature and volume), and grading of a submitted answer
//! against an expected value within a tolerance.
//!
//! Values are exact rationals: every conversion formula is an affine map
//! with rational coefficients, applied without rounding.

pub mod number;
pub mod rat;
pub mod table;
pub mod units;
pub mod verdict;

pub use number::parse_number;
pub use rat::close;
pub use rat::close_spec;
pub use rat::round_trip_tolerance;
pub use rat::single_conversion_tolerance;
pub use rat::Rat;
pub use table::convert;
pub use table::{kel_cel, kel_fah, kel_ran, cel_kel, cel_fah, cel_ran};
pub use table::{fah_kel, fah_cel, fah_ran, ran_kel, ran_cel, ran_fah};
pub use table::{lit_tab, lit_ci, lit_cups, lit_cf, lit_gal};
pub use table::{tab_lit, tab_ci, tab_cups, tab_cf, tab_gal};
pub use table::{ci_lit, ci_tab, ci_cups, ci_cf, ci_gal};
pub use table::{cups_lit, cups_ci, cups_tab, cups_cf, cups_gal};
pub use table::{cf_lit, cf_ci, cf_tab, cf_cups, cf_gal};
pub use table::{gal_lit, gal_ci, gal_tab, gal_cf, gal_cups};
pub use units::Family;
pub use units::Unit;
pub use units::UnitParseError;
pub use verdict::evaluate;
pub use verdict::Verdict;
