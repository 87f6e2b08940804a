//! Mapping engine of a gamepad-driven DJ controller.
//!
//! Snapshots of a dual-stick gamepad are turned into MIDI control messages:
//! buttons reassign the controller a deck's stick drives, or fire notes on
//! their edges; sticks are read as absolute angles or as angular steps.
//! Every function here is verified against the contract it carries.

pub mod input_mapper;
pub mod mapping;
pub mod midi_handler;
pub mod settings;
pub mod transform;
pub mod xinput_handler;
