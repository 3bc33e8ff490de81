//! Decision logic of a filesystem mount launcher.
//!
//! The launcher resolves a disk, named by path or by filesystem UUID, tries to
//! mount it from a detached daemon process, and reports the outcome to its
//! caller through a single byte. Everything here is pure: the embedding program
//! performs the system calls and feeds their results back in.
//!
//! - [`selector`] reads the command line into a disk selector and a mountpoint.
//! - [`launcher`] is the state machine of the launching process.
//! - [`candidates`] picks the candidate disks out of the platform's listings.
//! - [`resolver`] is the state machine of the daemon's walk over the candidates.
//! - [`script`] rehearses a whole run of the daemon against a scripted platform.
//! - [`runs`] and [`outcomes`] hold what is proved of every run.
//! - [`fsid`] and [`notes`] hold identifier texts and log lines.

pub mod candidates;
pub mod fsid;
pub mod launcher;
pub mod notes;
pub mod outcomes;
pub mod resolver;
pub mod runs;
pub mod script;
pub mod selector;
