//! Acquisition of a segmented video stream: identifier extraction, metadata
//! resolution, playlist resolution, segment fetching and job bookkeeping.
//!
//! Network and file work is left to the caller; every decision the pipeline
//! makes is a verified function of the values the caller hands in.
pub mod batch;
pub mod decimal;
pub mod error;
pub mod ident;
pub mod job;
pub mod metadata;
pub mod playlist;
pub mod sanitize;
pub mod text;
pub mod transcode;
