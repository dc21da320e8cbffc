//! Entry flow of a browser chat session: a locally persisted user profile,
//! the invitation code that decides between creating and joining a room,
//! and the controller that moves a session from the entry form to the room.

pub mod profile;
pub mod store;
pub mod room_code;
pub mod session;
