//! Control event engine for a GPIO-driven MIDI controller.
//!
//! The engine decodes two-bit quadrature samples from rotary encoders into
//! directional detent steps, maps button edges and encoder steps to MIDI
//! Control Change values, keeps the runtime table of configured controls,
//! and decides, for every incoming event, which message to send.

pub mod decoder;
pub mod mapper;
pub mod message;
pub mod registry;
pub mod dispatch;
