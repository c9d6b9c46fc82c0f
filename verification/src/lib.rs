//! A fleet-configuration engine: for each host and each unit of work it
//! finds out whether the host already is as declared and, if not, brings it
//! there. Every value that comes from a declaration or from a host is
//! screened before it may stand in a command line.
//!
//! - `tasks`: the screening of text and the catalog of primitive commands,
//!   requests, outcomes, and what surrounds every unit of work.
//! - `inventory`: hosts and groups, and the variables visible on a host.
//! - `connection`: what a transport to a host has to offer.
//! - `playbooks`: the rendering of templates and conditions.
//! - `handle`: the evaluation of declared fields and the remote operations.
//! - `modules`: the actions, each with its evaluation and its dispatch.
//! - `util`: text and variable documents.

pub mod connection;
pub mod handle;
pub mod inventory;
pub mod modules;
pub mod playbooks;
pub mod tasks;
pub mod util;
