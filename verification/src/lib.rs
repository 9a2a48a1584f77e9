//! A small desktop-utility core: capture a screen image, persist it at a
//! fixed path, recognize its text, and drive an interactive shell that can
//! recapture, copy the recognized text, or ask a placeholder assistant.
//!
//! The verified library holds the decisions and data of that flow: the
//! response template, the shell's state transitions, the persisted-image
//! slot, and the capture pipeline's error taxonomy. Screen access, image
//! encoding and clipboard access are reached through narrow trusted
//! wrappers over the outside crates that provide them.

pub mod capture;
pub mod clipboard;
pub mod ocr;
pub mod respond;
pub mod session;
pub mod store;
