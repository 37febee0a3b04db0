//! Pomodoro timer engine: a work/break cycle state machine, the textual
//! command protocol that controls it, and the decisions of the poll loop and
//! of the control-channel listener, each with a machine-checked contract.
//!
//! - [`timer`]: the state machine and its laws
//! - [`socket`]: commands, their encoding, the endpoint, the listener's rules
//! - [`widget`]: one cycle of the poll loop
//! - [`config`], [`table`]: settings and their defaults
//! - [`render`]: what a renderer shows for a state
//! - [`sound`]: where the sound of a phase is found
//! - [`cli`], [`error`]: subcommands of the control program, error wording
//! - [`text`], [`paths`], [`dirs`]: text and path helpers, XDG directories

pub mod cli;
pub mod config;
pub mod dirs;
pub mod error;
pub mod paths;
pub mod render;
pub mod socket;
pub mod sound;
pub mod table;
pub mod text;
pub mod timer;
pub mod widget;
