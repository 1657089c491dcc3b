//! Components that declare their own kinds of failure on top of the
//! framework, each wrapping the causes that its kinds declare.
pub mod bar;
pub mod foo;
pub mod sample;
