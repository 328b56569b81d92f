//! Core logic of a real-time audio loopback router.
//!
//! The router captures the output of one audio device and sends it, live, to
//! several other output devices, each with its own mix of the channels. This
//! crate holds its decisions, and every function in it is verified:
//!
//! - `channel_mixer` spreads stereo frames over the channels of a target;
//! - `wave_format` reads the header that describes a stream, and `pcm`
//!   decodes and encodes the samples of a packet;
//! - `router` chooses the targets of a run, `pipeline` is the state machine
//!   that `start` and `stop` drive, and `pump` holds the decisions of the
//!   worker loop;
//! - `com_worker` orders the tasks of the apartment worker;
//! - `device` and `utils` build the records of the device directory;
//! - `device_watcher` turns notifications into events for a subscriber;
//! - `config` and `ui` hold the settings and what the settings panel shows.
//!
//! Talking to the audio subsystem, threads, files and the arithmetic on
//! samples are left to the caller: where a function needs them, it takes what
//! the caller saw, or a function of the caller, as an argument.

pub mod channel_mixer;
pub mod com_worker;
pub mod config;
pub mod device;
pub mod device_watcher;
pub mod pcm;
pub mod pipeline;
pub mod pump;
pub mod router;
pub mod ui;
pub mod utils;
pub mod wave_format;

pub use channel_mixer::ChannelMixer;
pub use com_worker::{Apartment, ComSend, ComWorker};
pub use config::{ChannelMixMode, Config, General, Output};
pub use device::{DeviceInfo, DeviceState};
pub use router::RouterConfig;
pub use ui::{DeviceLog, RoutingParams, UiData, UiDataTargetDevice};
pub use utils::decode_channel_mask;
