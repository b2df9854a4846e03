//! Declarative composition of prometheus metrics.
//!
//! A metric is described by a generic [`Opts`] value (name, help text and an
//! optional list of label names). The converters in [`convert`] turn such a
//! value into a concrete prometheus metric of a chosen [`MetricKind`], and
//! [`Composite::register`] builds and registers a whole list of declared
//! metrics as one batch, exposing each of them by its field name.
pub mod composite;
pub mod convert;
pub mod engine;
pub mod laws;
pub mod opts;

pub use composite::{Composite, Decl, DeclView, FieldView, Source, SourceView};
pub use convert::{Metric, MetricError, MetricKind};
pub use opts::{Opts, OptsView};
