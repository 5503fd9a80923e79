pub mod parser;
pub mod runtime;
pub mod testsuite;
