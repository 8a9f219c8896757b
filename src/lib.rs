//! Client-side transport: a status-classifying JSON fetch pipeline and a
//! duplex WebSocket session, with their decisions stated as verified
//! state machines.
pub mod error;
pub mod fetch;
pub mod websocket;

pub use reqwasm;
pub use wasm_bindgen;
pub use wasm_bindgen_futures::{self, spawn_local};
