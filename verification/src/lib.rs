//! Core logic of the VRC Companion voice-input tool: configuration,
//! request framing for the Eliza agent server, OSC chatbox packets for
//! VRChat, the MuteSelf toggle detector, the SteamVR overlay model and the
//! desktop session state machine.

pub mod text;
pub mod config;
pub mod osc;
pub mod clock;
pub mod integrations;
pub mod json;
pub mod eliza;
pub mod vrchat;
pub mod steamvr;
pub mod audio;
pub mod session;
