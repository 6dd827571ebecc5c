//! Controller-side library for a live lighting installation.
//!
//! At its heart is the shader hotloading pipeline: [`watch`] holds the
//! debounce policy that collapses bursts of filesystem changes into single
//! rebuilds, and [`shader`] holds the receiver state machine through which
//! the render loop picks up freshly built shader libraries without ever
//! blocking on a compile. Around it stand the runtime configuration and its
//! defaults ([`conf`]), the selection enums shared with the hotloaded shader
//! package ([`shader_shared`]), and the analysis of the incoming MIDI note
//! buffer ([`midi`]). Threads, processes, dynamic-library loading and file
//! I/O belong to the surrounding application; everything that decides lives
//! here, under contract.

use vstd::prelude::*;

pub mod conf;
pub mod midi;
pub mod shader;
pub mod shader_shared;
pub mod watch;

verus! {

/// Number of wash lights in the venue layout.
pub const WASH_COUNT: usize = 28;

/// Number of spot lights.
pub const SPOT_COUNT: usize = 2;

/// DMX channels occupied by a single spot light.
pub const DMX_ADDRS_PER_SPOT: u8 = 1;

/// DMX channels occupied by a single wash light.
pub const DMX_ADDRS_PER_WASH: u8 = 7;

/// DMX channels occupied by a single LED.
pub const DMX_ADDRS_PER_LED: u8 = 3;

/// DMX channels available within a single universe.
pub const DMX_ADDRS_PER_UNIVERSE: u16 = 512;

} // verus!
