//! Which D-Bus services are media players, and which of them are playing.

use vstd::prelude::*;
use vstd::utf8::encode_utf8;
use crate::text::starts_with_str;
use crate::vocabulary::{eq_ignore_ascii_case, eq_ignore_ascii_case_exec};

verus! {

/// A bus name of an MPRIS media player.
pub open spec fn is_player_name(name: Seq<char>) -> bool {
    crate::text::starts_with(name, "org.mpris.MediaPlayer2."@)
}

/// Whether the D-Bus name belongs to an MPRIS media player.
pub fn is_media_player(name: &str) -> (r: bool)
    ensures
        r == is_player_name(name@),
{
    starts_with_str(name, "org.mpris.MediaPlayer2.")
}

/// Whether a player's `PlaybackStatus` means it is playing (`Playing`, in
/// any ASCII case).
pub fn is_playing(status: &str) -> (r: bool)
    ensures
        r == eq_ignore_ascii_case(encode_utf8(status@), encode_utf8("Playing"@)),
{
    eq_ignore_ascii_case_exec(status, "Playing")
}

} // verus!
