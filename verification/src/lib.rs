//! A small validation library.
//!
//! A value of a supported type is checked against that type's fixed
//! sentinel rule and the result comes back as a tagged outcome carrying
//! either the accepted value or the reason it was turned away. Validation
//! is pure and total: it never blocks and never fails with anything other
//! than a rejected outcome.

pub mod outcome;
pub mod validator;
