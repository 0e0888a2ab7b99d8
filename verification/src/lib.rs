//! Static type tracking and mutation validation for the assignments of a
//! small language that reshapes event records, with the evaluation of the
//! validated assignments; and the settings of some of the components that
//! take such records in and send them on.

pub mod span;
pub mod entries;
pub mod text;
pub mod path;
pub mod kind;
pub mod value;
pub mod type_def;
pub mod state;
pub mod ast;
pub mod expr;
pub mod diagnostic;
pub mod error;
pub mod assignment;
pub mod soundness;
pub mod function_argument;
pub mod parse_syslog;
pub mod sinks;
pub mod sources;
