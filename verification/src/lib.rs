//! Connection-quality scores of a partially filled measurement.
//!
//! A measurement is a record of optional readings. Three scores are defined on
//! it: Vortex (flow efficiency), Radiance (radio-link quality) and Axon (the
//! two merged into one health figure). Each needs a fixed subset of the
//! readings, and missing data is an ordinary outcome: a score that cannot be
//! computed is `None`, never an error.
//!
//! The crate is generic in the numeric type of a reading. It decides whether a
//! score can be computed and on which readings; the arithmetic itself is a
//! rule that the caller passes in, applied to exactly those readings.

pub mod axon;
pub mod models;
pub mod radiance;
pub mod vortex;

pub use axon::AxonInputs;
pub use models::NetworkData;
pub use radiance::RadianceInputs;
pub use vortex::VortexInputs;
