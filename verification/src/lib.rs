//! Consumer-driven contract testing: the pattern model, the contract builders
//! and the command protocol of the mock-server bridge.
//!
//! A consumer writes down the interactions it expects of a provider. Where a
//! value may vary, it writes a pattern in place of a literal: a regular
//! expression, a type, the shape of an array, a date/time format. The
//! [`patterns`] take such a pattern apart into the example it generates and
//! the rule it asks of a value, and the [`rules`] test a value against a
//! rule. The [`builders`] gather requests, responses, interactions and the
//! contract; [`models`] holds what they build. [`mock_server`] decides what
//! the worker behind a running mock server does with each command.
//!
//! Everything here is plain data and total functions. The contract engine
//! itself (the live mock server, plug-in loading, transport) stays outside and
//! is driven from these values; what this library asks of other crates is
//! gathered in [`bindings`].

pub mod error;
pub mod bindings;
pub mod assoc;
pub mod json;
pub mod date_time;
pub mod rules;
pub mod patterns;
pub mod models;
pub mod builders;
pub mod mock_server;
