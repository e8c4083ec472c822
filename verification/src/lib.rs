//! Core logic for a long-running remote-job lifecycle and a batch
//! media-annotation pipeline.
//!
//! The crate models three cooperating components:
//!
//! * a job poller, which validates start requests, interprets remote
//!   status snapshots, and decides when a polling loop may stop;
//! * a batch pipeline, which turns per-object download and analysis
//!   outcomes into an ordered list of batch records and plans the
//!   per-result transformation work;
//! * a report aggregator, which renders those records as a flat text
//!   report and as tabular rows.
//!
//! Remote services (object storage, analysis, compression, document
//! rendering) are collaborators driven by an unverified front end; the
//! functions here take their observable outcomes as plain values and are
//! verified for every such outcome.

pub mod analysis;
pub mod batch;
pub mod errors;
pub mod numfmt;
pub mod poller;
pub mod report;
pub mod scratch;
pub mod session;
pub mod status;
pub mod strutil;
pub mod transcript;
