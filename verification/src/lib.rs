//! Query-and-harmonize engine for tab-separated GWAS summary statistics.
//!
//! The library parses the lines that an indexed retrieval hands over, matches
//! them against a requested variant and expresses the reported effect with
//! respect to the allele that the caller asks for.

pub mod datasets;
pub mod decimal;
pub mod model;
pub mod parse;
pub mod query;
pub mod record;
pub mod report;
pub mod stream;
pub mod text;
pub mod variant;
