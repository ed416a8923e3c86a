//! The sheets that slide over the window.

use vstd::prelude::*;

verus! {

/// Which sheets are open. There is one of these; whoever opens or closes a sheet is
/// handed a reference to it.
#[derive(Debug, PartialEq, Eq)]
pub struct Sheets {
    pub now_playing: bool,
    pub queue: bool,
    pub add_to_playlist: bool,
    pub song_menu: bool,
    pub library_menu: bool,
}

impl Sheets {
    /// All sheets are closed.
    pub fn new() -> (r: Sheets)
        ensures
            r == (Sheets {
                now_playing: false,
                queue: false,
                add_to_playlist: false,
                song_menu: false,
                library_menu: false,
            }),
    {
        Sheets {
            now_playing: false,
            queue: false,
            add_to_playlist: false,
            song_menu: false,
            library_menu: false,
        }
    }
}

} // verus!
