//! A registration and freeze-once lifecycle engine.
//!
//! Values are collected into a mutable [`registry::Builder`] during a setup
//! phase, then sealed exactly once into an immutable [`registry::Registry`]
//! that stays queryable by raw id, by [`util::Identifier`] and by typed
//! [`registry::RegistryKey`] for the remaining life of the process. Tag
//! membership stays mutable along its own axis after the seal.

pub mod client;
pub mod item;
pub mod nbt;
pub mod registry;
pub mod util;
