//! TexCreate, a scaffolder of LaTeX projects: the cache of templates, its
//! synchronisation with a remote catalog, and the assembly of a project from a
//! template and a configuration.
//!
//! The library decides and plans; it does not touch the disk or the network. What is
//! to be done there it hands out as steps (`dir::FsAction`, `repo::SyncAction`), and
//! what was found there it takes as plain values. Four crates do work of their own
//! behind contracts that are stated and not proved: `texcore` reads and renders
//! templates (`document`), `zip` packs archives (`archive`), `toml` reads and
//! writes manifests (`manifest`), and `texc_v3_compiler_conf` writes the compiler
//! configuration (`config`).
//!
//! - `dir`: the layout of the cache and the steps that create, fill and clear it.
//! - `manifest`, `version`: what a catalog holds, and the versions of the tool.
//! - `repo`: the addresses of the remote catalog, the look for a newer release, and
//!   the steps of a synchronisation run.
//! - `cache`: a model of the disk, and what a synchronisation run leaves on it.
//! - `document`, `archive`, `config`, `web`: templates, archives, and the assembly
//!   of a project on disk or as an archive.
//! - `cli`, `texc_gen`, `auto_complete`: what the commands of the tool decide.
//! - `error`, `text`: errors, and helpers for texts and numbers.

pub mod archive;
pub mod auto_complete;
pub mod cache;
pub mod cli;
pub mod config;
pub mod dir;
pub mod document;
pub mod error;
pub mod manifest;
pub mod repo;
pub mod texc_gen;
pub mod text;
pub mod version;
pub mod web;
