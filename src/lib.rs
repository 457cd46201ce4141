//! Provisioning of a new repository in a ghq-style tree
//! (`<root>/<service>/<author>/<repository>`): the configuration is resolved
//! from git's configuration store, a plan of typed steps is built from it, and
//! an executor carries the plan out, or only describes it.
pub mod command;
pub mod config;
pub mod executor;
pub mod plan;
