//! A verified model of a minimal two-database web service's startup and
//! routing logic.
//!
//! The service reads two connection strings from its environment, connects
//! to a relational store and a document store in that order, registers one
//! route, and listens on a fixed port. Every startup failure is fatal. The
//! decisions of that sequence live in [`bootstrap`] as a linear state
//! machine; the one-route dispatch decision lives in [`routing`]. The
//! network calls themselves are carried out by the surrounding process,
//! which reports each outcome back to the machine as an event.

pub mod bootstrap;
pub mod routing;
