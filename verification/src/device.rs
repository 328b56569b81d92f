//! Records of audio output devices.

use vstd::prelude::*;

verus! {

/// State bit of a device that is active.
pub const DEVICE_STATE_ACTIVE: u32 = 0x1;

/// State bit of a device that is disabled.
pub const DEVICE_STATE_DISABLED: u32 = 0x2;

/// State bit of a device that is not present.
pub const DEVICE_STATE_NOTPRESENT: u32 = 0x4;

/// State bit of a device that is unplugged.
pub const DEVICE_STATE_UNPLUGGED: u32 = 0x8;

/// Connection state of a device.
#[derive(Debug, Clone, Copy, PartialEq, Eq, Structural)]
pub enum DeviceState {
    /// The device is active and usable.
    Active,
    /// The device is disabled.
    Disabled,
    /// The device is unplugged.
    Unplugged,
    /// The device is not present.
    NotPresent,
    Unknown,
}

/// A snapshot of one output device.
#[derive(Debug, Clone, PartialEq, Eq)]
pub struct DeviceInfo {
    /// Identifier of the device, unique among the endpoints.
    pub id: String,
    /// Display name.
    pub friendly_name: String,
    pub state: DeviceState,
    /// Number of channels; unknown until the format is known.
    pub channels: Option<u16>,
    /// Speaker positions of the channels, one bit each.
    pub channel_mask: Option<u32>,
    /// Whether this is the default output device.
    pub is_default: bool,
}

/// What a `DeviceInfo` holds.
pub struct DeviceInfoView {
    pub id: Seq<char>,
    pub friendly_name: Seq<char>,
    pub state: DeviceState,
    pub channels: Option<u16>,
    pub channel_mask: Option<u32>,
    pub is_default: bool,
}

impl View for DeviceInfo {
    type V = DeviceInfoView;

    open spec fn view(&self) -> DeviceInfoView {
        DeviceInfoView {
            id: self.id@,
            friendly_name: self.friendly_name@,
            state: self.state,
            channels: self.channels,
            channel_mask: self.channel_mask,
            is_default: self.is_default,
        }
    }
}

/// What each device of a list holds.
pub open spec fn device_views(devices: Seq<DeviceInfo>) -> Seq<DeviceInfoView> {
    devices.map_values(|d: DeviceInfo| d@)
}

/// The state that the state bits of a device stand for. Where several bits
/// are set, active comes before disabled, disabled before unplugged, and
/// unplugged before not present.
pub open spec fn state_of(bits: u32) -> DeviceState {
    if bits & DEVICE_STATE_ACTIVE != 0 {
        DeviceState::Active
    } else if bits & DEVICE_STATE_DISABLED != 0 {
        DeviceState::Disabled
    } else if bits & DEVICE_STATE_UNPLUGGED != 0 {
        DeviceState::Unplugged
    } else if bits & DEVICE_STATE_NOTPRESENT != 0 {
        DeviceState::NotPresent
    } else {
        DeviceState::Unknown
    }
}

/// Maps the state bits of a device to its state.
pub fn map_state(state: u32) -> (mapped: DeviceState)
    ensures
        mapped == state_of(state),
{
    if (state & DEVICE_STATE_ACTIVE) != 0 {
        DeviceState::Active
    } else if (state & DEVICE_STATE_DISABLED) != 0 {
        DeviceState::Disabled
    } else if (state & DEVICE_STATE_UNPLUGGED) != 0 {
        DeviceState::Unplugged
    } else if (state & DEVICE_STATE_NOTPRESENT) != 0 {
        DeviceState::NotPresent
    } else {
        DeviceState::Unknown
    }
}

/// The record of a device with the given properties: a device without a
/// display name, or with an empty one, is shown by its identifier, and the
/// device is the default exactly if a default is known and has the same
/// identifier.
pub open spec fn described_device(
    id: Seq<char>,
    friendly_name: Option<Seq<char>>,
    state_bits: u32,
    mix_format: (Option<u16>, Option<u32>),
    default_device_id: Option<Seq<char>>,
) -> DeviceInfoView {
    DeviceInfoView {
        id,
        friendly_name: match friendly_name {
            Some(name) => if name.len() > 0 {
                name
            } else {
                id
            },
            None => id,
        },
        state: state_of(state_bits),
        channels: mix_format.0,
        channel_mask: mix_format.1,
        is_default: default_device_id == Some(id),
    }
}

/// Builds the record of a device from what the audio subsystem told of it.
///
/// `friendly_name` is the display name, where the device has one; an empty
/// name counts as none.
/// `mix_format` holds the channel count and the channel mask, as far as the
/// format of the device could be read. `default_device_id` is the identifier
/// of the default device, where it could be found.
pub fn describe_device(
    id: String,
    friendly_name: Option<String>,
    state_bits: u32,
    mix_format: (Option<u16>, Option<u32>),
    default_device_id: Option<&String>,
) -> (info: DeviceInfo)
    ensures
        info@ == described_device(
            id@,
            match friendly_name {
                Some(name) => Some(name@),
                None => None,
            },
            state_bits,
            mix_format,
            match default_device_id {
                Some(default_id) => Some(default_id@),
                None => None,
            },
        ),
        default_device_id is None ==> !info.is_default,
{
    let is_default = match default_device_id {
        Some(default_id) => *default_id == id,
        None => false,
    };
    let friendly_name = match friendly_name {
        Some(name) => if name.as_str().is_empty() {
            id.clone()
        } else {
            name
        },
        None => id.clone(),
    };
    DeviceInfo {
        id,
        friendly_name,
        state: map_state(state_bits),
        channels: mix_format.0,
        channel_mask: mix_format.1,
        is_default,
    }
}

/// Among records that were made with one default identifier, and whose
/// identifiers differ from each other, at most one is the default.
pub proof fn lemma_at_most_one_default(
    devices: Seq<DeviceInfoView>,
    default_device_id: Option<Seq<char>>,
)
    requires
        forall|i: int|
            0 <= i < devices.len() ==> (#[trigger] devices[i]).is_default == (default_device_id
                == Some(devices[i].id)),
        forall|i: int, j: int|
            0 <= i < j < devices.len() ==> (#[trigger] devices[i]).id != (#[trigger] devices[j]).id,
    ensures
        forall|i: int, j: int|
            0 <= i < devices.len() && 0 <= j < devices.len() && (#[trigger] devices[i]).is_default
                && (#[trigger] devices[j]).is_default ==> i == j,
{
    assert forall|i: int, j: int|
        0 <= i < devices.len() && 0 <= j < devices.len() && (#[trigger] devices[i]).is_default && (
        #[trigger] devices[j]).is_default implies i == j by {
        if i < j {
            assert(devices[i].id != devices[j].id);
        } else if j < i {
            assert(devices[j].id != devices[i].id);
        }
    }
}

} // verus!
