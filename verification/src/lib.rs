//! Java interop for Rust: what is sent to a Java virtual machine, what is asked of it, and
//! what its answers mean.
//!
//! The library decides and a program around it acts. A Java object is a number here, a call
//! is a value, and an operation that takes several steps is a machine that names the next
//! question and takes the answer.
//!
//! - [`convert`], [`vectors`], [`arguments`] and [`array`] turn Rust values into Java values
//!   and back; [`conversions`] states what each of them stands for, and [`roundtrip`] which
//!   of them come back as they were sent.
//! - [`signature`], [`names`] and [`jni_text`] read and write type descriptors and class
//!   names.
//! - [`call`], [`matching`], [`resolve`] and [`resolution`] make dynamic calls and find the
//!   overload that a call means.
//! - [`natives`] registers Rust functions as native methods.
//! - [`interface`], [`shell`] and [`default_method`] answer the calls that arrive at a Rust
//!   implementation of a Java interface.
//! - [`future`] and [`bridge`] wait for Java futures, and complete them.
//! - [`bean`] builds and reads Java beans and records.
//! - [`rust_source`], [`plain`], [`reader`], [`gather`], [`grammar`], [`mapping`], [`template`],
//!   [`expand`], [`expand_interface`] and [`expand_native`] are the macros; [`readings`] states
//!   what is read of a declaration, [`declarations`] and [`mirror`] what holds of every
//!   accepted one, and [`expansions`] what it expands to.

pub mod arguments;
pub mod array;
pub mod bean;
pub mod bridge;
pub mod call;
pub mod conversions;
pub mod convert;
pub mod declarations;
pub mod default_method;
pub mod error;
pub mod expand;
pub mod expand_interface;
pub mod expand_native;
pub mod expansions;
pub mod future;
pub mod gather;
pub mod grammar;
pub mod handles;
pub mod interface;
pub mod java;
pub mod jni_text;
pub mod mapping;
pub mod matching;
pub mod mirror;
pub mod names;
pub mod natives;
pub mod plain;
pub mod reader;
pub mod readings;
pub mod resolution;
pub mod resolve;
pub mod roundtrip;
pub mod rust_source;
pub mod shell;
pub mod signature;
pub mod template;
pub mod text;
pub mod value;
pub mod vectors;
