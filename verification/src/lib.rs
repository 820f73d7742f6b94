//! The backend side of the LifeOS desktop shell: how the backend service is
//! launched, how the one process the shell may hold is supervised, and what the
//! shell does on each event of its tray, its menu and its window.
//!
//! Everything here works on plain values. Creating a process, signalling it and
//! driving the window system are left to the caller, which performs the actions
//! this library decides on and hands back what happened.

pub mod port;
pub mod path;
pub mod launch;
pub mod supervisor;
pub mod shell;
pub mod laws;
