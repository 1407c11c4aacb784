//! Domain-constrained value types for weather-station readings.
//!
//! Two independent families make up the crate. The constrained scalar
//! wrappers ([`percentage::UPercent100`], [`degrees::UDegree360`],
//! [`oktas::Oktas`]) each carry a single unsigned integer that is known,
//! by construction, to lie in its legal closed interval; the only way to
//! obtain one is through its validating constructor, so possession of a
//! wrapper is proof that its value is in range. The compass module
//! ([`compass`]) decides whether a tuple of one to three cardinal
//! directions spells one of the sixteen points of the compass rose.
//!
//! All operations are pure and total: construction and validation
//! consume their input by value and return either a valid value or an
//! error, and nothing here performs I/O, retries, or panics on bad
//! input.

pub mod compass;
pub mod degrees;
pub mod float_readings;
pub mod forms;
pub mod oktas;
pub mod percentage;
pub mod static_tables;
