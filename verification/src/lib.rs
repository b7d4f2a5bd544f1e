//! The decision logic of a Matrix chat client: the room store and what each
//! backend answer or user action does to it, the room settings panel, the
//! account settings panel, sticker groups and the identity-service request.

pub mod account;
pub mod appop;
pub mod backend_loop;
pub mod effects;
pub mod identity;
pub mod ids;
pub mod keyed;
pub mod laws;
pub mod model;
pub mod room_settings;
pub mod text;
pub mod stickers;
