//! Planning of trim-and-transcode jobs for a command-line media encoder, and
//! reading of a media prober's report.

pub mod formats;
pub mod json;
pub mod number;
pub mod plan;
pub mod probe;
pub mod request;
pub mod rules;
pub mod text;
pub mod theorems;
