//! The settings of the components that take events in.

pub mod aws_sqs;
