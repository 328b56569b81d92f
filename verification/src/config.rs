//! Settings of the router: the mix modes and the persisted configuration.

use vstd::prelude::*;

verus! {

/// How a stereo frame is spread over the channels of one output device.
#[derive(Debug, Clone, Copy, PartialEq, Eq, Structural)]
pub enum ChannelMixMode {
    /// Left and right pass through to the first two channels.
    Stereo,
    /// The left channel goes to every output channel.
    Left,
    /// The right channel goes to every output channel.
    Right,
    /// The mono mix goes to every output channel.
    Center,
    /// Same as `Left`.
    FrontLeft,
    /// Same as `Right`.
    FrontRight,
    /// The left channel at reduced volume goes to every output channel.
    BackLeft,
    /// The right channel at reduced volume goes to every output channel.
    BackRight,
    /// The mono mix goes to every output channel.
    BackSurround,
    /// The boosted mono mix goes to every output channel.
    Subwoofer,
}

impl ChannelMixMode {
    /// The number that stands for the mode in the settings, 0 to 9.
    pub open spec fn spec_code(self) -> u8 {
        match self {
            ChannelMixMode::Stereo => 0,
            ChannelMixMode::Left => 1,
            ChannelMixMode::Right => 2,
            ChannelMixMode::Center => 3,
            ChannelMixMode::FrontLeft => 4,
            ChannelMixMode::FrontRight => 5,
            ChannelMixMode::BackLeft => 6,
            ChannelMixMode::BackRight => 7,
            ChannelMixMode::BackSurround => 8,
            ChannelMixMode::Subwoofer => 9,
        }
    }

    /// The number that stands for the mode in the settings.
    #[verifier::when_used_as_spec(spec_code)]
    pub fn code(self) -> (code: u8)
        ensures
            code == self.spec_code(),
    {
        match self {
            ChannelMixMode::Stereo => 0,
            ChannelMixMode::Left => 1,
            ChannelMixMode::Right => 2,
            ChannelMixMode::Center => 3,
            ChannelMixMode::FrontLeft => 4,
            ChannelMixMode::FrontRight => 5,
            ChannelMixMode::BackLeft => 6,
            ChannelMixMode::BackRight => 7,
            ChannelMixMode::BackSurround => 8,
            ChannelMixMode::Subwoofer => 9,
        }
    }

    /// The mode that a number stands for, if it stands for one.
    pub fn from_code(code: u8) -> (mode: Option<ChannelMixMode>)
        ensures
            code <= 9 <==> mode is Some,
            mode matches Some(m) ==> m.spec_code() == code,
    {
        if code == 0 {
            Some(ChannelMixMode::Stereo)
        } else if code == 1 {
            Some(ChannelMixMode::Left)
        } else if code == 2 {
            Some(ChannelMixMode::Right)
        } else if code == 3 {
            Some(ChannelMixMode::Center)
        } else if code == 4 {
            Some(ChannelMixMode::FrontLeft)
        } else if code == 5 {
            Some(ChannelMixMode::FrontRight)
        } else if code == 6 {
            Some(ChannelMixMode::BackLeft)
        } else if code == 7 {
            Some(ChannelMixMode::BackRight)
        } else if code == 8 {
            Some(ChannelMixMode::BackSurround)
        } else if code == 9 {
            Some(ChannelMixMode::Subwoofer)
        } else {
            None
        }
    }
}

impl Default for ChannelMixMode {
    fn default() -> (mode: ChannelMixMode)
        ensures
            mode == ChannelMixMode::Stereo,
    {
        ChannelMixMode::Stereo
    }
}

/// General application settings.
#[derive(Debug, Clone)]
pub struct General {
    pub language: String,
    /// Whether to start minimized to the tray.
    pub minimized: bool,
    /// Whether to launch at system startup.
    pub start_with_windows: bool,
    /// Whether to start routing on launch.
    pub auto_route: bool,
}

/// What a `General` holds.
pub struct GeneralView {
    pub language: Seq<char>,
    pub minimized: bool,
    pub start_with_windows: bool,
    pub auto_route: bool,
}

impl View for General {
    type V = GeneralView;

    open spec fn view(&self) -> GeneralView {
        GeneralView {
            language: self.language@,
            minimized: self.minimized,
            start_with_windows: self.start_with_windows,
            auto_route: self.auto_route,
        }
    }
}

/// One saved output device.
#[derive(Debug, Clone)]
pub struct Output {
    pub device_id: String,
    pub channel_mode: ChannelMixMode,
    pub enabled: bool,
}

/// What an `Output` holds.
pub struct OutputView {
    pub device_id: Seq<char>,
    pub channel_mode: ChannelMixMode,
    pub enabled: bool,
}

impl View for Output {
    type V = OutputView;

    open spec fn view(&self) -> OutputView {
        OutputView {
            device_id: self.device_id@,
            channel_mode: self.channel_mode,
            enabled: self.enabled,
        }
    }
}

/// The persisted settings.
#[derive(Debug, Clone)]
pub struct Config {
    pub config_version: i32,
    pub general: General,
    pub source_device_id: String,
    pub outputs: Vec<Output>,
}

/// What a `Config` holds.
pub struct ConfigView {
    pub config_version: i32,
    pub general: GeneralView,
    pub source_device_id: Seq<char>,
    pub outputs: Seq<OutputView>,
}

/// What each output of a list holds.
pub open spec fn output_views(outputs: Seq<Output>) -> Seq<OutputView> {
    outputs.map_values(|o: Output| o@)
}

impl View for Config {
    type V = ConfigView;

    open spec fn view(&self) -> ConfigView {
        ConfigView {
            config_version: self.config_version,
            general: self.general@,
            source_device_id: self.source_device_id@,
            outputs: output_views(self.outputs@),
        }
    }
}

/// The settings of a fresh installation.
pub open spec fn default_config() -> ConfigView {
    ConfigView {
        config_version: 1,
        general: GeneralView {
            language: "en"@,
            minimized: false,
            start_with_windows: false,
            auto_route: false,
        },
        source_device_id: Seq::empty(),
        outputs: Seq::empty(),
    }
}

/// Why a configuration is refused.
#[derive(Debug, Clone, Copy, PartialEq, Eq, Structural)]
pub enum ConfigError {
    /// The configuration holds a value that the router cannot use.
    Invalid,
}

/// The `enabled` flag of an output entry that does not state one.
pub fn default_true() -> (enabled: bool)
    ensures
        enabled,
{
    true
}

/// The mix mode of an output entry that does not state one.
pub fn default_channel_mode() -> (mode: ChannelMixMode)
    ensures
        mode == ChannelMixMode::Stereo,
{
    ChannelMixMode::Stereo
}

impl Default for Config {
    fn default() -> (config: Config)
        ensures
            config@ == default_config(),
    {
        let config = Config {
            config_version: 1,
            general: General {
                language: "en".to_string(),
                minimized: false,
                start_with_windows: false,
                auto_route: false,
            },
            source_device_id: String::new(),
            outputs: Vec::new(),
        };
        assert(output_views(config.outputs@) =~= Seq::empty());
        config
    }
}

impl Config {
    /// Checks the configuration. Every configuration is accepted.
    pub fn validate(&self) -> (outcome: Result<(), ConfigError>)
        ensures
            outcome is Ok,
    {
        Ok(())
    }
}

} // verus!
