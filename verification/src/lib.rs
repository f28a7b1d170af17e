//! Provisioning of a hardware security module as a signing root of trust.
//!
//! One run resets a device, replaces its credentials with fresh random ones,
//! generates a root and a targets keypair on it, and leaves their public keys
//! and certificates in files named after the device's serial number. Most of
//! that cannot be undone, so the order of the steps and what may precede
//! each of them is the substance of this library.
//!
//! The run is a state machine that touches nothing itself: [`workflow`]
//! makes one request at a time, its caller carries the request out (asks the
//! operator, talks to the device, writes the file) and hands back what came
//! of it. [`model`] is the machine as mathematics, [`run`] follows it along
//! sequences of events, and [`laws`] states what holds of every run.
//!
//! The rest is what the machine decides with: [`device`] for discovery and
//! status, [`secret`] for credentials, [`keys`] and [`output`] for what is
//! generated and written, [`profile`] for the two families of devices,
//! [`token`] and [`usb_hsm`] for the calls each family's driver is given,
//! [`script`] for how such calls are made one after the other, and [`error`]
//! for how a run fails.

pub mod device;
pub mod error;
pub mod keys;
pub mod laws;
pub mod model;
pub mod output;
pub mod profile;
pub mod run;
pub mod script;
pub mod secret;
pub mod text;
pub mod token;
pub mod usb_hsm;
pub mod workflow;
