use audio_core::device::{
    describe_device, map_state, DeviceInfo, DeviceState, DEVICE_STATE_ACTIVE,
    DEVICE_STATE_DISABLED, DEVICE_STATE_NOTPRESENT, DEVICE_STATE_UNPLUGGED,
};
use audio_core::utils::{decode_channel_mask, speaker_label, SPEAKER_POSITIONS};

#[test]
fn state_bits_have_their_values() {
    assert_eq!(DEVICE_STATE_ACTIVE, 1);
    assert_eq!(DEVICE_STATE_DISABLED, 2);
    assert_eq!(DEVICE_STATE_NOTPRESENT, 4);
    assert_eq!(DEVICE_STATE_UNPLUGGED, 8);
}

#[test]
fn single_state_bits_map_to_their_state() {
    assert_eq!(map_state(1), DeviceState::Active);
    assert_eq!(map_state(2), DeviceState::Disabled);
    assert_eq!(map_state(4), DeviceState::NotPresent);
    assert_eq!(map_state(8), DeviceState::Unplugged);
    assert_eq!(map_state(0), DeviceState::Unknown);
    assert_eq!(map_state(16), DeviceState::Unknown);
    assert_eq!(map_state(0xffff_fff0), DeviceState::Unknown);
}

#[test]
fn several_state_bits_map_by_priority() {
    assert_eq!(map_state(0xf), DeviceState::Active);
    assert_eq!(map_state(0xe), DeviceState::Disabled);
    assert_eq!(map_state(0xc), DeviceState::Unplugged);
    assert_eq!(map_state(0x14), DeviceState::NotPresent);
    assert_eq!(map_state(u32::MAX), DeviceState::Active);
}

#[test]
fn device_record_holds_what_was_read() {
    let default_id = "{0.0.0.00000000}.{a}".to_string();
    let info = describe_device(
        "{0.0.0.00000000}.{a}".to_string(),
        Some("Speakers".to_string()),
        1,
        (Some(2), Some(3)),
        Some(&default_id),
    );
    assert_eq!(
        info,
        DeviceInfo {
            id: "{0.0.0.00000000}.{a}".to_string(),
            friendly_name: "Speakers".to_string(),
            state: DeviceState::Active,
            channels: Some(2),
            channel_mask: Some(3),
            is_default: true,
        }
    );
}

#[test]
fn device_without_name_is_shown_by_its_identifier() {
    let info = describe_device("id-1".to_string(), None, 8, (None, None), None);
    assert_eq!(info.friendly_name, "id-1");
    assert_eq!(info.state, DeviceState::Unplugged);
    assert_eq!(info.channels, None);
    assert_eq!(info.channel_mask, None);
    let info = describe_device("id-2".to_string(), Some(String::new()), 1, (Some(6), None), None);
    assert_eq!(info.friendly_name, "id-2");
    assert_eq!(info.channels, Some(6));
}

#[test]
fn only_the_device_with_the_default_identifier_is_default() {
    let default_id = "b".to_string();
    let ids = ["a", "b", "c"];
    let marked: Vec<bool> = ids
        .iter()
        .map(|id| describe_device(id.to_string(), None, 1, (None, None), Some(&default_id)).is_default)
        .collect();
    assert_eq!(marked, vec![false, true, false]);
}

#[test]
fn no_device_is_default_when_the_default_is_unknown() {
    for id in ["a", "b", ""] {
        assert!(!describe_device(id.to_string(), None, 1, (None, None), None).is_default);
    }
}

#[test]
fn mask_without_bits_names_nothing() {
    assert_eq!(decode_channel_mask(0), Vec::<&str>::new());
    assert_eq!(decode_channel_mask(0xffff_0000), Vec::<&str>::new());
}

#[test]
fn stereo_mask_names_front_left_and_right() {
    assert_eq!(decode_channel_mask(0x3), vec!["Front Left", "Front Right"]);
}

#[test]
fn surround_masks_name_their_speakers_in_bit_order() {
    assert_eq!(
        decode_channel_mask(0x3f),
        vec!["Front Left", "Front Right", "Front Center", "LFE", "Back Left", "Back Right"]
    );
    assert_eq!(
        decode_channel_mask(0x63f),
        vec![
            "Front Left",
            "Front Right",
            "Front Center",
            "LFE",
            "Back Left",
            "Back Right",
            "Side Left",
            "Side Right"
        ]
    );
}

#[test]
fn every_bit_has_its_name() {
    let names = [
        "Front Left",
        "Front Right",
        "Front Center",
        "LFE",
        "Back Left",
        "Back Right",
        "Front Left Of Center",
        "Front Right Of Center",
        "Back Center",
        "Side Left",
        "Side Right",
        "Top Center",
        "Top Front Left",
        "Top Front Right",
        "Top Back Left",
        "Top Back Right",
    ];
    assert_eq!(SPEAKER_POSITIONS, 16);
    for (bit, name) in names.iter().enumerate() {
        assert_eq!(decode_channel_mask(1 << bit), vec![*name]);
        assert_eq!(speaker_label(bit as u32), *name);
    }
    assert_eq!(decode_channel_mask(0xffff), names.to_vec());
    assert_eq!(decode_channel_mask(u32::MAX), names.to_vec());
}
