//! Autoplay: from the bot's decision to the presses that carry it out.

pub mod bus;
pub mod buttons;
pub mod manager;
pub mod plan;
pub mod poll;
pub mod rematch;
pub mod response;
pub mod retry;
pub mod riichi_frame;
pub mod screenshot;
pub mod watch;
pub mod window;
