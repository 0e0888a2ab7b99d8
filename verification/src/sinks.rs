//! The settings of the components that send events on.

pub mod common;
pub mod aws_s3;
pub mod console;
pub mod datadog_events;
pub mod vector;
