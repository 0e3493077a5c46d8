//! A personal task list: short lines of text, grouped into named projects.
//!
//! The library decides and computes; it performs no input or output. A command
//! line becomes a [`command::Plan`], the program around the library reads what
//! the plan names, and the functions of [`tasks`] and [`project`] say what is
//! written back and what is printed.
pub mod command;
pub mod number;
pub mod project;
pub mod reply;
pub mod store;
pub mod tasks;
pub mod text;
