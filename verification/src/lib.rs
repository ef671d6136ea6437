//! Verified core of a small music player: the scrolling playlist widget,
//! the event decisions of the player window and the web greeting bodies.
pub mod graphic_playlist;
pub mod graphic_handler;
pub mod server;
