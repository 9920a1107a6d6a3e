//! Glue code between C functions and a JVM-hosted COBOL runtime.
//!
//! The signatures of the functions that a C source declares are read off
//! its syntax tree ([`extract`]), written to and read from an intermediate
//! YAML document ([`codec`]), and turned into a Java class ([`java_stub`])
//! and a C shim ([`c_shim`]) per function, or into a diagnostic C program
//! that prints them ([`report`]).
//!
//! Every function states what it returns in terms of the values of its
//! arguments: a signature is a [`cfunc::FunctionView`], a generated file is
//! a sequence of characters. The syntax tree and the YAML values belong to
//! other crates; [`syntax`] and [`document`] hold the calls into them.

pub mod c_shim;
pub mod cfunc;
pub mod codec;
pub mod cparam;
pub mod document;
pub mod error;
pub mod extract;
pub mod java_stub;
pub mod java_type;
pub mod laws;
pub mod mode;
pub mod report;
pub mod syntax;
pub mod text;
