//! What the settings panel is shown and what it asks for: the values that
//! cross between the panel and the router, and how they are made from the
//! settings and the device list.

use crate::config::{ChannelMixMode, Config, ConfigView, OutputView};
use crate::device::{DeviceInfo, DeviceInfoView};
use crate::router::{target_config_views, RouterConfig, RouterConfigView};
use vstd::prelude::*;

verus! {

/// A device as the device picker lists it.
#[derive(Debug)]
pub struct DeviceLog {
    pub id: String,
    pub name: String,
}

/// What a `DeviceLog` holds.
pub struct DeviceLogView {
    pub id: Seq<char>,
    pub name: Seq<char>,
}

impl View for DeviceLog {
    type V = DeviceLogView;

    open spec fn view(&self) -> DeviceLogView {
        DeviceLogView { id: self.id@, name: self.name@ }
    }
}

/// What the panel asks to route.
#[derive(Debug)]
pub struct RoutingParams {
    pub source_id: Option<String>,
    pub targets: Vec<(String, ChannelMixMode)>,
}

/// A target device as the panel shows it.
#[derive(Debug)]
pub struct UiDataTargetDevice {
    pub id: String,
    pub name: String,
    pub mix_mode: ChannelMixMode,
    pub enabled: bool,
}

/// What a `UiDataTargetDevice` holds.
pub struct UiDataTargetDeviceView {
    pub id: Seq<char>,
    pub name: Seq<char>,
    pub mix_mode: ChannelMixMode,
    pub enabled: bool,
}

impl View for UiDataTargetDevice {
    type V = UiDataTargetDeviceView;

    open spec fn view(&self) -> UiDataTargetDeviceView {
        UiDataTargetDeviceView {
            id: self.id@,
            name: self.name@,
            mix_mode: self.mix_mode,
            enabled: self.enabled,
        }
    }
}

/// What the panel shows.
#[derive(Debug)]
pub struct UiData {
    pub source_device: Option<String>,
    pub target_devices: Vec<UiDataTargetDevice>,
    pub is_running: bool,
}

/// What a `UiData` holds.
pub struct UiDataView {
    pub source_device: Option<Seq<char>>,
    pub target_devices: Seq<UiDataTargetDeviceView>,
    pub is_running: bool,
}

impl View for UiData {
    type V = UiDataView;

    open spec fn view(&self) -> UiDataView {
        UiDataView {
            source_device: match self.source_device {
                Some(id) => Some(id@),
                None => None,
            },
            target_devices: self.target_devices@.map_values(|t: UiDataTargetDevice| t@),
            is_running: self.is_running,
        }
    }
}

/// The picker entry of each device, in the order of the devices.
pub open spec fn listed_devices(devices: Seq<DeviceInfoView>) -> Seq<DeviceLogView> {
    Seq::new(
        devices.len(),
        |i: int| DeviceLogView { id: devices[i].id, name: devices[i].friendly_name },
    )
}

/// Lists the devices for the device picker: identifier and display name of
/// each.
pub fn device_logs(devices: &Vec<DeviceInfo>) -> (logs: Vec<DeviceLog>)
    ensures
        logs@.map_values(|l: DeviceLog| l@) == listed_devices(
            devices@.map_values(|d: DeviceInfo| d@),
        ),
{
    let mut logs: Vec<DeviceLog> = Vec::new();
    let mut index: usize = 0;
    while index < devices.len()
        invariant
            index <= devices@.len(),
            logs@.len() == index,
            forall|i: int|
                0 <= i < index ==> (#[trigger] logs@[i])@ == (DeviceLogView {
                    id: devices@[i].id@,
                    name: devices@[i].friendly_name@,
                }),
        decreases devices@.len() - index,
    {
        let device = &devices[index];
        logs.push(DeviceLog { id: device.id.clone(), name: device.friendly_name.clone() });
        index = index + 1;
    }
    assert(logs@.map_values(|l: DeviceLog| l@) =~= listed_devices(
        devices@.map_values(|d: DeviceInfo| d@),
    ));
    logs
}

impl RoutingParams {
    /// The routing configuration that the panel asks for.
    pub fn into_config(self) -> (config: RouterConfig)
        ensures
            config.source_device_id == self.source_id,
            config.target_config == self.targets,
    {
        RouterConfig { source_device_id: self.source_id, target_config: self.targets }
    }
}

/// The saved outputs that are enabled, in their order, each as the target
/// that it stands for.
pub open spec fn enabled_targets(outputs: Seq<OutputView>) -> Seq<(Seq<char>, ChannelMixMode)>
    decreases outputs.len(),
{
    if outputs.len() == 0 {
        Seq::empty()
    } else {
        let earlier = enabled_targets(outputs.drop_last());
        if outputs.last().enabled {
            earlier.push((outputs.last().device_id, outputs.last().channel_mode))
        } else {
            earlier
        }
    }
}

/// The routing that starts by itself at launch: none unless the settings ask
/// for it, name a source and hold an enabled output; else the saved source
/// to the enabled outputs.
pub open spec fn auto_routing(config: ConfigView) -> Option<RouterConfigView> {
    if config.general.auto_route && config.source_device_id.len() > 0 && enabled_targets(
        config.outputs,
    ).len() > 0 {
        Some(
            RouterConfigView {
                source_device_id: Some(config.source_device_id),
                target_config: enabled_targets(config.outputs),
            },
        )
    } else {
        None
    }
}

/// The routing configuration with which routing starts at launch, if the
/// settings ask for one.
pub fn auto_route_config(config: &Config) -> (routing: Option<RouterConfig>)
    ensures
        match routing {
            Some(r) => Some(r@),
            None => None,
        } == auto_routing(config@),
{
    if !config.general.auto_route || config.source_device_id.as_str().is_empty() {
        return None;
    }
    let ghost outputs = config@.outputs;
    let mut targets: Vec<(String, ChannelMixMode)> = Vec::new();
    let mut index: usize = 0;
    while index < config.outputs.len()
        invariant
            index <= config.outputs@.len(),
            outputs == config@.outputs,
            target_config_views(targets@) == enabled_targets(
                outputs.take(index as int),
            ),
        decreases config.outputs@.len() - index,
    {
        let ghost before = targets@;
        let output = &config.outputs[index];
        assert(outputs.take(index + 1).drop_last() =~= outputs.take(index as int));
        assert(outputs.take(index + 1).last() == output@);
        if output.enabled {
            targets.push((output.device_id.clone(), output.channel_mode));
            assert(target_config_views(targets@) =~= target_config_views(before).push(
                (output.device_id@, output.channel_mode),
            ));
        }
        index = index + 1;
    }
    assert(outputs.take(config.outputs@.len() as int) =~= outputs);
    if targets.len() == 0 {
        return None;
    }
    Some(
        RouterConfig {
            source_device_id: Some(config.source_device_id.clone()),
            target_config: targets,
        },
    )
}

/// The saved output of the device with the given identifier: the last one,
/// where several are saved for it.
pub open spec fn saved_output(outputs: Seq<OutputView>, id: Seq<char>) -> Option<OutputView>
    decreases outputs.len(),
{
    if outputs.len() == 0 {
        None
    } else if outputs.last().device_id == id {
        Some(outputs.last())
    } else {
        saved_output(outputs.drop_last(), id)
    }
}

/// A device as the panel shows it: with the mix mode and the enabled flag of
/// its saved output, or as a disabled stereo target where none is saved.
pub open spec fn shown_target(outputs: Seq<OutputView>, device: DeviceInfoView) -> UiDataTargetDeviceView {
    UiDataTargetDeviceView {
        id: device.id,
        name: device.friendly_name,
        mix_mode: match saved_output(outputs, device.id) {
            Some(output) => output.channel_mode,
            None => ChannelMixMode::Stereo,
        },
        enabled: match saved_output(outputs, device.id) {
            Some(output) => output.enabled,
            None => false,
        },
    }
}

/// What the panel shows for the given settings and devices.
pub open spec fn shown_data(
    config: ConfigView,
    devices: Seq<DeviceInfoView>,
    is_running: bool,
) -> UiDataView {
    UiDataView {
        source_device: Some(config.source_device_id),
        target_devices: Seq::new(devices.len(), |i: int| shown_target(config.outputs, devices[i])),
        is_running,
    }
}

/// Looks up the saved output of a device.
fn find_output(config: &Config, id: &String) -> (found: Option<(ChannelMixMode, bool)>)
    ensures
        match saved_output(config@.outputs, id@) {
            Some(output) => found == Some((output.channel_mode, output.enabled)),
            None => found is None,
        },
{
    let ghost outputs = config@.outputs;
    let mut index: usize = config.outputs.len();
    assert(outputs.take(index as int) =~= outputs);
    while index > 0
        invariant
            index <= config.outputs@.len(),
            outputs == config@.outputs,
            saved_output(outputs, id@) == saved_output(outputs.take(index as int), id@),
        decreases index,
    {
        let output = &config.outputs[index - 1];
        let ghost prefix = outputs.take(index as int);
        assert(prefix.last() == output@);
        assert(prefix.drop_last() =~= outputs.take(index - 1));
        if output.device_id == *id {
            return Some((output.channel_mode, output.enabled));
        }
        index = index - 1;
    }
    assert(outputs.take(0).len() == 0);
    None
}

/// Builds what the panel shows: the saved source, every device with its
/// saved mix mode and enabled flag, and whether the router runs.
pub fn ui_data(config: &Config, devices: &Vec<DeviceInfo>, is_running: bool) -> (data: UiData)
    ensures
        data@ == shown_data(config@, devices@.map_values(|d: DeviceInfo| d@), is_running),
{
    let ghost device_views = devices@.map_values(|d: DeviceInfo| d@);
    let mut target_devices: Vec<UiDataTargetDevice> = Vec::new();
    let mut index: usize = 0;
    while index < devices.len()
        invariant
            index <= devices@.len(),
            device_views == devices@.map_values(|d: DeviceInfo| d@),
            target_devices@.len() == index,
            forall|i: int|
                0 <= i < index ==> (#[trigger] target_devices@[i])@ == shown_target(
                    config@.outputs,
                    device_views[i],
                ),
        decreases devices@.len() - index,
    {
        let device = &devices[index];
        let saved = find_output(config, &device.id);
        let (mix_mode, enabled) = match saved {
            Some((mode, enabled)) => (mode, enabled),
            None => (ChannelMixMode::Stereo, false),
        };
        target_devices.push(
            UiDataTargetDevice {
                id: device.id.clone(),
                name: device.friendly_name.clone(),
                mix_mode,
                enabled,
            },
        );
        index = index + 1;
    }
    let data = UiData {
        source_device: Some(config.source_device_id.clone()),
        target_devices,
        is_running,
    };
    assert(data@.target_devices =~= shown_data(config@, device_views, is_running).target_devices);
    data
}

/// Whether the arguments of the process ask for a minimized start.
pub fn has_minimized_flag(args: &Vec<String>) -> (found: bool)
    ensures
        found == exists|i: int| 0 <= i < args@.len() && (#[trigger] args@[i])@ == "--minimized"@,
{
    let flag = "--minimized".to_string();
    let mut index: usize = 0;
    while index < args.len()
        invariant
            index <= args@.len(),
            flag@ == "--minimized"@,
            forall|i: int| 0 <= i < index ==> (#[trigger] args@[i])@ != "--minimized"@,
        decreases args@.len() - index,
    {
        if args[index] == flag {
            return true;
        }
        index = index + 1;
    }
    false
}

/// Whether the window is shown at launch: unless the arguments or the
/// settings ask for a minimized start.
pub fn shows_window_at_launch(minimized_flag: bool, config: &Config) -> (shown: bool)
    ensures
        shown == (!minimized_flag && !config@.general.minimized),
{
    !minimized_flag && !config.general.minimized
}

} // verus!
