//! The discrete core of a phyllotaxis visualiser: the parameter record of a
//! sunflower pattern, the rules by which a control panel edits it, the
//! decision when a pattern has to be laid out again, and the layout itself as
//! an ordered list of placed elements.
//!
//! Real numbers are carried as IEEE-754 bit patterns ([`scalar::Scalar`]) and
//! never computed with: an element says where in the pattern it sits, and the
//! renderer turns that into coordinates.

pub mod flower;
pub mod laws;
pub mod layout;
pub mod petal;
pub mod regeneration;
pub mod scalar;
pub mod ui;
