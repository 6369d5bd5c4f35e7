//! The decision core of DSH Client, the desktop shell for DeepSeek Harness (dsh).
//!
//! The shell installs a self-contained dsh kernel, runs it on a loopback port,
//! supervises its process, keeps it up to date, and shows its interface in a
//! window. What it decides on the way is here: [`manager`] holds the state that
//! all threads share, and [`supervisor`], [`launch`], [`install`] and [`update`]
//! are state machines that take in what happened and say what to do next.
//! Whoever drives them performs the actions and reports back.

pub mod deploy;
pub mod http;
pub mod install;
pub mod launch;
pub mod manager;
pub mod process;
pub mod readiness;
pub mod registry;
pub mod shell;
pub mod supervisor;
pub mod text;
pub mod update;
pub mod version;
