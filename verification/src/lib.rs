pub mod answers;
pub mod branches;
pub mod cli;
pub mod cloning;
pub mod commands;
pub mod comparing;
pub mod contents;
pub mod dialogue;
pub mod diff;
pub mod errors;
pub mod likeness;
pub mod listing;
pub mod merging;
pub mod model;
pub mod oid;
pub mod outcomes;
pub mod porcelain;
pub mod printed;
pub mod raw;
pub mod rebasing;
pub mod records;
pub mod refusals;
pub mod relations;
pub mod remotes;
pub mod replay;
pub mod safety;
pub mod service;
pub mod stats;
pub mod tallies;
pub mod text;
pub mod time;
pub mod traces;
pub mod worktrees;
