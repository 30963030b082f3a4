//! Build-file scaffolding core: a pure, deterministic generator that turns a
//! validated set of project options into the full text of a Makefile, plus the
//! string validators that the surrounding prompt layer uses before it
//! constructs those options.

pub mod gen;
pub mod input;
pub mod text;
