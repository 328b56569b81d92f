//! Helpers of the device directory: the names of speaker positions, and a
//! common path to the helpers that live with their data.

pub use crate::com_worker::ComSend;
pub use crate::device::map_state;
pub use crate::wave_format::parse_mix_format;
use vstd::prelude::*;

verus! {

/// Number of speaker positions that a channel mask can name.
pub const SPEAKER_POSITIONS: u32 = 16;

/// Display name of the speaker position with the given bit index.
pub open spec fn speaker_name(position: nat) -> Seq<char> {
    if position == 0 {
        "Front Left"@
    } else if position == 1 {
        "Front Right"@
    } else if position == 2 {
        "Front Center"@
    } else if position == 3 {
        "LFE"@
    } else if position == 4 {
        "Back Left"@
    } else if position == 5 {
        "Back Right"@
    } else if position == 6 {
        "Front Left Of Center"@
    } else if position == 7 {
        "Front Right Of Center"@
    } else if position == 8 {
        "Back Center"@
    } else if position == 9 {
        "Side Left"@
    } else if position == 10 {
        "Side Right"@
    } else if position == 11 {
        "Top Center"@
    } else if position == 12 {
        "Top Front Left"@
    } else if position == 13 {
        "Top Front Right"@
    } else if position == 14 {
        "Top Back Left"@
    } else {
        "Top Back Right"@
    }
}

/// Whether the mask has the bit of the given speaker position set.
pub open spec fn has_speaker(mask: u32, position: nat) -> bool {
    position < 32 && mask & (1u32 << (position as u32)) != 0
}

/// The speaker positions below `limit` that the mask names, in ascending order.
pub open spec fn speakers_below(mask: u32, limit: nat) -> Seq<nat>
    decreases limit,
{
    if limit == 0 {
        Seq::empty()
    } else {
        let lower = speakers_below(mask, (limit - 1) as nat);
        if has_speaker(mask, (limit - 1) as nat) {
            lower.push((limit - 1) as nat)
        } else {
            lower
        }
    }
}

/// The names of the speaker positions in `positions`, in the same order.
pub open spec fn speaker_names(positions: Seq<nat>) -> Seq<Seq<char>> {
    positions.map_values(|p: nat| speaker_name(p))
}

/// The text of each label in `labels`.
pub open spec fn label_texts(labels: Seq<&'static str>) -> Seq<Seq<char>> {
    labels.map_values(|s: &'static str| s@)
}

/// Name of one speaker position.
pub fn speaker_label(position: u32) -> (label: &'static str)
    requires
        position < SPEAKER_POSITIONS,
    ensures
        label@ == speaker_name(position as nat),
{
    if position == 0 {
        "Front Left"
    } else if position == 1 {
        "Front Right"
    } else if position == 2 {
        "Front Center"
    } else if position == 3 {
        "LFE"
    } else if position == 4 {
        "Back Left"
    } else if position == 5 {
        "Back Right"
    } else if position == 6 {
        "Front Left Of Center"
    } else if position == 7 {
        "Front Right Of Center"
    } else if position == 8 {
        "Back Center"
    } else if position == 9 {
        "Side Left"
    } else if position == 10 {
        "Side Right"
    } else if position == 11 {
        "Top Center"
    } else if position == 12 {
        "Top Front Left"
    } else if position == 13 {
        "Top Front Right"
    } else if position == 14 {
        "Top Back Left"
    } else {
        "Top Back Right"
    }
}

/// Decodes a channel position mask into the names of the speaker positions
/// it holds, one name per set bit among the sixteen known positions, lowest
/// bit first. Bits above the known positions are ignored.
pub fn decode_channel_mask(mask: u32) -> (positions: Vec<&'static str>)
    ensures
        label_texts(positions@) == speaker_names(speakers_below(mask, SPEAKER_POSITIONS as nat)),
{
    let mut positions: Vec<&'static str> = Vec::new();
    let mut bit: u32 = 0;
    while bit < SPEAKER_POSITIONS
        invariant
            bit <= SPEAKER_POSITIONS,
            label_texts(positions@) == speaker_names(speakers_below(mask, bit as nat)),
        decreases SPEAKER_POSITIONS - bit,
    {
        let ghost before = positions@;
        let ghost lower = speakers_below(mask, bit as nat);
        if mask & (1u32 << bit) != 0 {
            let label = speaker_label(bit);
            positions.push(label);
            assert(label_texts(positions@) =~= label_texts(before).push(label@));
            assert(speaker_names(lower.push(bit as nat)) =~= speaker_names(lower).push(
                speaker_name(bit as nat),
            ));
        }
        bit = bit + 1;
    }
    positions
}

} // verus!
