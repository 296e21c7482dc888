//! Core of a desktop chat-notification agent: decoding of bus payloads,
//! the dispatcher that drives the popup window's visibility, the bus
//! listener's per-message policy, and the pure parts of the speech,
//! screen-shake and tray behaviour.
pub mod decoder;
pub mod dispatcher;
pub mod listener;
pub mod notification;
pub mod shake;
pub mod speech;
pub mod tray;
