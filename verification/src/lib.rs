//! A small command runner: it reads custom command definitions from a
//! project manifest, resolves a requested command name together with its
//! automatic `pre` and `post` hooks, and decides how a sequence of shell
//! steps is run and how their exit codes propagate.

pub mod manifest;
pub mod model;
pub mod run;
pub mod toml_api;
