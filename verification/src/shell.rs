//! What surrounds the pages: the players, the bars and the navigation.

pub mod commands;
pub mod device_selector;
pub mod dsp;
pub mod factory;
pub mod navigation;
pub mod now_playing;
pub mod playback;
pub mod player_notifier;
pub mod sheets;
pub mod transport;
pub mod user_menu;
