//! The decision logic of a music-streaming client: how library cards are
//! ordered, which screens and rows are shown, what is asked of the web API and
//! what is made of its answers, and which commands go to the player.

pub mod actions;
pub mod api;
pub mod card_enums;
pub mod card_model;
pub mod id_set;
pub mod lists;
pub mod models;
pub mod pages;
pub mod shell;
pub mod song_list;
pub mod sorting;
pub mod spotify_id;
pub mod state;
pub mod text;
pub mod widgets;
