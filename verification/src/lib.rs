//! Session core of a control-surface plugin client: frame building and
//! decoding, the handler registry, the settings and visibility store, and the
//! press timing rules, with machine-checked contracts.

pub mod args;
pub mod codec;
pub mod decode;
pub mod dispatch;
pub mod events;
pub mod images;
pub mod inbound;
pub mod info;
pub mod json;
pub mod keyed;
pub mod press;
pub mod registry;
pub mod sent;
pub mod settings;
pub mod store;
pub mod stream_deck;
