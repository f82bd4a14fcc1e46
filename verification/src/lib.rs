//! Clawd: the decision logic of a desktop pet that walks along the bottom of
//! the screen, climbs window edges, changes mood with the user's activity and
//! answers a small local control API.

pub mod state;
pub mod random;
pub mod mood;
pub mod pet_pack;
pub mod window_tracker;
pub mod pet_controller;
pub mod http_api;
pub mod file_eater;
pub mod tray;
