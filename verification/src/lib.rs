//! Verified core of a browser client for a SparkSDR receiver host: spot
//! ingestion and filtering, audio scheduling and waterfall aggregation.

pub mod audio;
pub mod call;
pub mod clock;
pub mod color;
pub mod frame;
pub mod model;
pub mod spark;
pub mod spectrum;
pub mod spot;
pub mod text;
