//! The parts that pages are made of: cards, lists of cards and lists of songs.

pub mod card;
pub mod card_list;
pub mod playlist;
