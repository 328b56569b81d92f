use audio_core::config::{
    default_channel_mode, default_true, ChannelMixMode, Config, General, Output,
};
use audio_core::device::{DeviceInfo, DeviceState};
use audio_core::ui::{
    auto_route_config, device_logs, has_minimized_flag, shows_window_at_launch, ui_data,
    RoutingParams,
};

fn output(id: &str, mode: ChannelMixMode, enabled: bool) -> Output {
    Output { device_id: id.to_string(), channel_mode: mode, enabled }
}

fn config(auto_route: bool, source: &str, outputs: Vec<Output>) -> Config {
    Config {
        config_version: 1,
        general: General {
            language: "en".to_string(),
            minimized: false,
            start_with_windows: false,
            auto_route,
        },
        source_device_id: source.to_string(),
        outputs,
    }
}

fn device(id: &str, name: &str) -> DeviceInfo {
    DeviceInfo {
        id: id.to_string(),
        friendly_name: name.to_string(),
        state: DeviceState::Active,
        channels: Some(2),
        channel_mask: None,
        is_default: false,
    }
}

#[test]
fn default_config_is_a_fresh_installation() {
    let config = Config::default();
    assert_eq!(config.config_version, 1);
    assert_eq!(config.general.language, "en");
    assert!(!config.general.minimized);
    assert!(!config.general.start_with_windows);
    assert!(!config.general.auto_route);
    assert_eq!(config.source_device_id, "");
    assert!(config.outputs.is_empty());
}

#[test]
fn every_config_is_valid() {
    assert_eq!(Config::default().validate(), Ok(()));
    let odd = config(true, "", vec![output("", ChannelMixMode::Subwoofer, true)]);
    assert_eq!(odd.validate(), Ok(()));
}

#[test]
fn output_defaults_are_enabled_stereo() {
    assert!(default_true());
    assert_eq!(default_channel_mode(), ChannelMixMode::Stereo);
    assert_eq!(ChannelMixMode::default(), ChannelMixMode::Stereo);
}

#[test]
fn mix_modes_have_the_codes_zero_to_nine() {
    let modes = [
        ChannelMixMode::Stereo,
        ChannelMixMode::Left,
        ChannelMixMode::Right,
        ChannelMixMode::Center,
        ChannelMixMode::FrontLeft,
        ChannelMixMode::FrontRight,
        ChannelMixMode::BackLeft,
        ChannelMixMode::BackRight,
        ChannelMixMode::BackSurround,
        ChannelMixMode::Subwoofer,
    ];
    for (code, mode) in modes.iter().enumerate() {
        assert_eq!(mode.code() as usize, code);
        assert_eq!(ChannelMixMode::from_code(code as u8), Some(*mode));
    }
    for code in 10..=u8::MAX {
        assert_eq!(ChannelMixMode::from_code(code), None);
    }
}

#[test]
fn auto_routing_takes_the_enabled_outputs_in_order() {
    let settings = config(
        true,
        "src",
        vec![
            output("a", ChannelMixMode::Left, true),
            output("b", ChannelMixMode::Right, false),
            output("c", ChannelMixMode::Subwoofer, true),
        ],
    );
    let routing = auto_route_config(&settings).unwrap();
    assert_eq!(routing.source_device_id, Some("src".to_string()));
    assert_eq!(
        routing.target_config,
        vec![("a".to_string(), ChannelMixMode::Left), ("c".to_string(), ChannelMixMode::Subwoofer)]
    );
}

#[test]
fn auto_routing_needs_flag_source_and_an_enabled_output() {
    let outputs = || vec![output("a", ChannelMixMode::Left, true)];
    assert!(auto_route_config(&config(true, "src", outputs())).is_some());
    assert!(auto_route_config(&config(false, "src", outputs())).is_none());
    assert!(auto_route_config(&config(true, "", outputs())).is_none());
    assert!(auto_route_config(&config(true, "src", Vec::new())).is_none());
    let disabled = vec![output("a", ChannelMixMode::Left, false)];
    assert!(auto_route_config(&config(true, "src", disabled)).is_none());
    assert!(auto_route_config(&Config::default()).is_none());
}

#[test]
fn routing_params_become_the_router_config() {
    let params = RoutingParams {
        source_id: Some("src".to_string()),
        targets: vec![("a".to_string(), ChannelMixMode::Center)],
    };
    let routing = params.into_config();
    assert_eq!(routing.source_device_id, Some("src".to_string()));
    assert_eq!(routing.target_config, vec![("a".to_string(), ChannelMixMode::Center)]);
    let routing = RoutingParams { source_id: None, targets: Vec::new() }.into_config();
    assert_eq!(routing.source_device_id, None);
    assert!(routing.target_config.is_empty());
}

#[test]
fn device_picker_lists_id_and_name() {
    let logs = device_logs(&vec![device("a", "Speakers"), device("b", "Headset")]);
    let listed: Vec<(String, String)> = logs.into_iter().map(|l| (l.id, l.name)).collect();
    assert_eq!(
        listed,
        vec![("a".to_string(), "Speakers".to_string()), ("b".to_string(), "Headset".to_string())]
    );
    assert!(device_logs(&Vec::new()).is_empty());
}

#[test]
fn panel_shows_devices_with_their_saved_output() {
    let settings = config(
        false,
        "src",
        vec![
            output("b", ChannelMixMode::BackLeft, true),
            output("gone", ChannelMixMode::Left, true),
            output("c", ChannelMixMode::Subwoofer, false),
        ],
    );
    let devices = vec![device("a", "A"), device("b", "B"), device("c", "C")];
    let data = ui_data(&settings, &devices, true);
    assert_eq!(data.source_device, Some("src".to_string()));
    assert!(data.is_running);
    let shown: Vec<(String, String, ChannelMixMode, bool)> = data
        .target_devices
        .into_iter()
        .map(|t| (t.id, t.name, t.mix_mode, t.enabled))
        .collect();
    assert_eq!(
        shown,
        vec![
            ("a".to_string(), "A".to_string(), ChannelMixMode::Stereo, false),
            ("b".to_string(), "B".to_string(), ChannelMixMode::BackLeft, true),
            ("c".to_string(), "C".to_string(), ChannelMixMode::Subwoofer, false),
        ]
    );
}

#[test]
fn panel_takes_the_last_saved_output_of_a_device() {
    let settings = config(
        false,
        "",
        vec![
            output("a", ChannelMixMode::Left, true),
            output("a", ChannelMixMode::Right, false),
        ],
    );
    let data = ui_data(&settings, &vec![device("a", "A")], false);
    assert_eq!(data.source_device, Some(String::new()));
    assert!(!data.is_running);
    assert_eq!(data.target_devices.len(), 1);
    assert_eq!(data.target_devices[0].mix_mode, ChannelMixMode::Right);
    assert!(!data.target_devices[0].enabled);
}

#[test]
fn minimized_flag_is_found_among_the_arguments() {
    let args = |list: &[&str]| list.iter().map(|a| a.to_string()).collect::<Vec<String>>();
    assert!(has_minimized_flag(&args(&["app", "--minimized"])));
    assert!(has_minimized_flag(&args(&["--minimized", "x"])));
    assert!(!has_minimized_flag(&args(&["app", "--minimised", "-minimized", "--minimized "])));
    assert!(!has_minimized_flag(&args(&[])));
}

#[test]
fn window_is_shown_unless_a_minimized_start_is_asked_for() {
    let mut settings = Config::default();
    assert!(shows_window_at_launch(false, &settings));
    assert!(!shows_window_at_launch(true, &settings));
    settings.general.minimized = true;
    assert!(!shows_window_at_launch(false, &settings));
    assert!(!shows_window_at_launch(true, &settings));
}
