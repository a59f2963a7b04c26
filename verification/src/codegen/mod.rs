//! The decisions of the `#[mockable]` attribute: which trait declarations
//! can be mocked, how its arguments are read, which derives a mock gets and
//! how the generated items are named. The syntax trees themselves are read
//! and written around this module; it sees them as plain values.
pub mod attr;
pub mod derive;
pub mod error;
pub mod method;
pub mod mockable;
pub mod mocked_trait_registry;
pub mod names;
pub mod trait_decl;
