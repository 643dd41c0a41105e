use vstd::prelude::*;

verus! {

/// Severity of a log message, from least to most severe.
#[derive(PartialEq, PartialOrd)]
pub enum LogLevel {
    Debug,
    Info,
    Warn,
    Error,
}

/// Where log messages go.
pub enum LogTarget {
    Console,
    Mqtt,
}

} // verus!
