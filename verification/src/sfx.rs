use vstd::prelude::*;

verus! {

/// The status of the music stream while it plays.
pub const STREAM_PLAYING: u32 = 4;

/// The status of the music stream while it is paused.
pub const STREAM_PAUSED: u32 = 8;

/// What the game hears of the music stream with status `stream_status` (none where there
/// is no stream): 2 while it plays or is paused, else 1; and whether the stream, having
/// stopped, is to be closed.
pub fn bgm_status(stream_status: Option<u32>) -> (r: (u32, bool))
    ensures
        r == match stream_status {
            Some(s) => if s == STREAM_PLAYING || s == STREAM_PAUSED {
                (2u32, false)
            } else {
                (1u32, true)
            },
            None => (1u32, false),
        },
{
    match stream_status {
        Some(s) => {
            if s == STREAM_PLAYING || s == STREAM_PAUSED {
                (2, false)
            } else {
                (1, true)
            }
        },
        None => (1, false),
    }
}

} // verus!
