//! The song that the singing task learns before performing it.

use vstd::prelude::*;

verus! {

use vstd::string::StringExecFns;

/// A song, held as its lyric.
pub struct Song {
    pub lyric: String,
}

/// Learn the song: the lyric is fixed, so the song handed to the
/// performer is always the same.
pub fn learn_song() -> (s: Song)
    ensures
        s.lyric@ == "La la la..."@,
{
    Song { lyric: String::from_str("La la la...") }
}

} // verus!
