//! The pages and drawers of the client.

pub mod add_to_playlist;
pub mod details_album;
pub mod details_artist;
pub mod details_page;
pub mod details_playlist;
pub mod home;
pub mod library;
pub mod library_list;
pub mod library_menu;
pub mod library_rows;
pub mod membership_cache;
pub mod pinned_store;
pub mod queue;
pub mod radio;
pub mod saved_tracks;
pub mod search;
pub mod search_model;
pub mod search_row;
pub mod settings;
pub mod song_menu;
