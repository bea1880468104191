//! The rules of a desktop overlay timer.
//!
//! The heart of the library is the system-wide keyboard shortcut: the names
//! of keys ([`keys`]), the state of the modifiers ([`modifiers`]), canonical
//! shortcut strings ([`shortcut`]), the registry of callbacks ([`registry`]),
//! the dispatcher that answers each keyboard event ([`dispatch`]) and the
//! life cycle of the hook ([`hook`]).
//!
//! Around it stand the rules of the commands of the user interface
//! ([`commands`]), of the timers that the tray creates ([`timers`],
//! [`config`]) and of the tray itself ([`menu`], [`tray`]), with a model of
//! JSON documents ([`json`], [`json_text`]) and some tools for text
//! ([`text`]).
//!
//! The library does no input or output. Whoever uses it asks the operating
//! system, reads and writes files, and hands the library what came of it.

pub mod commands;
pub mod config;
pub mod dispatch;
pub mod hook;
pub mod json;
pub mod json_text;
pub mod keys;
pub mod menu;
pub mod modifiers;
pub mod registry;
pub mod shortcut;
pub mod text;
pub mod timers;
pub mod tray;
