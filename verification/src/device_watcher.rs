//! The device watcher: how notifications of the audio subsystem become
//! events for a subscriber.
//!
//! The caller registers with the audio subsystem and owns the thread and the
//! channel. It hands each notification to a `WatcherState`, which answers
//! with the event to send, if any. The first event of a watch announces the
//! default device; notifications that arrive before it are held back.

use crate::device::{DeviceInfo, DeviceInfoView};
use vstd::prelude::*;

verus! {

/// Time after which the watcher thread looks for a stop request again, in
/// milliseconds.
pub const STOP_POLL_MILLIS: u64 = 500;

/// What a subscriber is told.
#[derive(Debug, Clone)]
pub enum DeviceEvent {
    /// Devices were added or removed, or the state or a property of a device
    /// changed. The subscriber lists the devices again.
    Changed,
    /// The default device changed; holds the default device.
    DefaultChanged(DeviceInfo),
}

/// What a `DeviceEvent` holds.
pub enum DeviceEventView {
    Changed,
    DefaultChanged(DeviceInfoView),
}

impl View for DeviceEvent {
    type V = DeviceEventView;

    open spec fn view(&self) -> DeviceEventView {
        match self {
            DeviceEvent::Changed => DeviceEventView::Changed,
            DeviceEvent::DefaultChanged(device) => DeviceEventView::DefaultChanged(device@),
        }
    }
}

/// What an optional device holds.
pub open spec fn device_view(device: Option<DeviceInfo>) -> Option<DeviceInfoView> {
    match device {
        Some(d) => Some(d@),
        None => None,
    }
}

/// What an optional event holds.
pub open spec fn event_view(event: Option<DeviceEvent>) -> Option<DeviceEventView> {
    match event {
        Some(e) => Some(e@),
        None => None,
    }
}

/// A notification of the audio subsystem.
#[derive(Debug, Clone, Copy, PartialEq, Eq, Structural)]
pub enum Notification {
    DeviceStateChanged,
    DeviceAdded,
    DeviceRemoved,
    DefaultDeviceChanged,
    PropertyValueChanged,
}

/// The event that a notification stands for. A change of the default device
/// is told with the default device as `default_device` found it, and is not
/// told at all where it could not be found. Every other notification is a
/// plain change.
pub open spec fn event_of(
    notification: Notification,
    default_device: Option<DeviceInfoView>,
) -> Option<DeviceEventView> {
    match notification {
        Notification::DefaultDeviceChanged => match default_device {
            Some(device) => Some(DeviceEventView::DefaultChanged(device)),
            None => None,
        },
        _ => Some(DeviceEventView::Changed),
    }
}

/// Whether the default device is looked up before the notification is
/// translated.
pub fn needs_default_device(notification: Notification) -> (needed: bool)
    ensures
        needed == (notification == Notification::DefaultDeviceChanged),
{
    match notification {
        Notification::DefaultDeviceChanged => true,
        _ => false,
    }
}

/// Translates a notification into the event for the subscriber.
/// `default_device` is the default device, where it was looked up and found.
pub fn translate(notification: Notification, default_device: Option<DeviceInfo>) -> (event: Option<
    DeviceEvent,
>)
    ensures
        event_view(event) == event_of(notification, device_view(default_device)),
{
    match notification {
        Notification::DefaultDeviceChanged => match default_device {
            Some(device) => Some(DeviceEvent::DefaultChanged(device)),
            None => None,
        },
        _ => Some(DeviceEvent::Changed),
    }
}

/// One input of a watch.
pub enum WatchInput {
    /// The watcher announces the default device, as far as it was found.
    Announce(Option<DeviceInfoView>),
    /// The audio subsystem notifies; with the default device, as far as it
    /// was looked up and found.
    Notify(Notification, Option<DeviceInfoView>),
}

/// What a watch sends for `input`, given whether it has announced the
/// default device already.
pub open spec fn sent_for(announced: bool, input: WatchInput) -> Option<DeviceEventView> {
    match input {
        WatchInput::Announce(default_device) => if announced {
            None
        } else {
            match default_device {
                Some(device) => Some(DeviceEventView::DefaultChanged(device)),
                None => None,
            }
        },
        WatchInput::Notify(notification, default_device) => if announced {
            event_of(notification, default_device)
        } else {
            None
        },
    }
}

/// Whether a watch has announced after `input`.
pub open spec fn announced_after(announced: bool, input: WatchInput) -> bool {
    announced || input is Announce
}

/// Whether a watch that began with `inputs` has announced.
pub open spec fn has_announced(inputs: Seq<WatchInput>) -> bool
    decreases inputs.len(),
{
    if inputs.len() == 0 {
        false
    } else {
        announced_after(has_announced(inputs.drop_last()), inputs.last())
    }
}

/// The events that a watch has sent after `inputs`, in order.
pub open spec fn events_sent(inputs: Seq<WatchInput>) -> Seq<DeviceEventView>
    decreases inputs.len(),
{
    if inputs.len() == 0 {
        Seq::empty()
    } else {
        let earlier = events_sent(inputs.drop_last());
        match sent_for(has_announced(inputs.drop_last()), inputs.last()) {
            Some(event) => earlier.push(event),
            None => earlier,
        }
    }
}

/// Before the announcement nothing is sent.
pub proof fn lemma_silent_before_announcement(inputs: Seq<WatchInput>)
    requires
        forall|i: int| 0 <= i < inputs.len() ==> inputs[i] is Notify,
    ensures
        !has_announced(inputs),
        events_sent(inputs).len() == 0,
    decreases inputs.len(),
{
    if inputs.len() > 0 {
        lemma_silent_before_announcement(inputs.drop_last());
    }
}

/// Later inputs add events behind those that were sent.
pub proof fn lemma_events_only_grow(inputs: Seq<WatchInput>, later: Seq<WatchInput>)
    ensures
        events_sent(inputs).is_prefix_of(events_sent(inputs + later)),
        has_announced(inputs) ==> has_announced(inputs + later),
    decreases later.len(),
{
    if later.len() == 0 {
        assert(inputs + later =~= inputs);
    } else {
        lemma_events_only_grow(inputs, later.drop_last());
        assert((inputs + later).drop_last() =~= inputs + later.drop_last());
    }
}

/// The first event of a watch is its announcement: where the watcher
/// announces a default device that it found, after any notifications that
/// came before, the event `DefaultChanged` with that device is sent first,
/// whatever comes later, and the announcement sends no second event.
pub proof fn lemma_announcement_comes_first(
    early: Seq<WatchInput>,
    default_device: DeviceInfoView,
    later: Seq<WatchInput>,
)
    requires
        forall|i: int| 0 <= i < early.len() ==> early[i] is Notify,
    ensures
        events_sent(early.push(WatchInput::Announce(Some(default_device)))) == seq![
            DeviceEventView::DefaultChanged(default_device),
        ],
        events_sent(early.push(WatchInput::Announce(Some(default_device))) + later).len() >= 1,
        events_sent(early.push(WatchInput::Announce(Some(default_device))) + later)[0]
            == DeviceEventView::DefaultChanged(default_device),
{
    let announce = WatchInput::Announce(Some(default_device));
    let opening = early.push(announce);
    lemma_silent_before_announcement(early);
    assert(opening.drop_last() =~= early);
    assert(events_sent(opening) =~= seq![DeviceEventView::DefaultChanged(default_device)]);
    lemma_events_only_grow(opening, later);
    let all = events_sent(opening + later);
    assert(all.subrange(0, 1) == events_sent(opening));
    assert(all[0] == all.subrange(0, 1)[0]);
}

/// The state of a watch: whether the default device was announced.
pub struct WatcherState {
    announced: bool,
}

impl WatcherState {
    /// Whether the default device was announced.
    pub closed spec fn spec_announced(&self) -> bool {
        self.announced
    }

    /// The state at the start of a watch.
    pub fn new() -> (state: WatcherState)
        ensures
            !state.spec_announced(),
    {
        WatcherState { announced: false }
    }

    /// Whether the default device was announced.
    #[verifier::when_used_as_spec(spec_announced)]
    pub fn announced(&self) -> (announced: bool)
        ensures
            announced == self.spec_announced(),
    {
        self.announced
    }

    /// Announces the default device at the start of a watch. The first call
    /// gives the event `DefaultChanged` where a default device was found;
    /// from then on notifications pass. Further calls give nothing.
    pub fn announce(&mut self, default_device: Option<DeviceInfo>) -> (event: Option<DeviceEvent>)
        ensures
            event_view(event) == sent_for(
                old(self).spec_announced(),
                WatchInput::Announce(device_view(default_device)),
            ),
            final(self).spec_announced(),
    {
        if self.announced {
            return None;
        }
        self.announced = true;
        match default_device {
            Some(device) => Some(DeviceEvent::DefaultChanged(device)),
            None => None,
        }
    }

    /// The event for a notification: its translation once the default
    /// device was announced, nothing before.
    pub fn notify(&self, notification: Notification, default_device: Option<DeviceInfo>) -> (event:
        Option<DeviceEvent>)
        ensures
            event_view(event) == sent_for(
                self.spec_announced(),
                WatchInput::Notify(notification, device_view(default_device)),
            ),
    {
        if self.announced {
            translate(notification, default_device)
        } else {
            None
        }
    }
}

/// How the wait for a stop request ended.
#[derive(Debug, Clone, Copy, PartialEq, Eq, Structural)]
pub enum StopWait {
    /// A stop was requested.
    Signalled,
    /// No request came in time.
    TimedOut,
    /// The handle of the watcher is gone.
    Disconnected,
}

/// Whether the watcher goes on after a wait: only after a wait that timed
/// out.
pub fn keeps_watching(wait: StopWait) -> (goes_on: bool)
    ensures
        goes_on == (wait == StopWait::TimedOut),
{
    match wait {
        StopWait::TimedOut => true,
        _ => false,
    }
}

/// The handle of a running watch. `S` is the sender of the stop request and
/// `J` the handle of the watcher thread.
pub struct WatcherHandle<S, J> {
    stop_tx: Option<S>,
    join_handle: Option<J>,
}

impl<S, J> WatcherHandle<S, J> {
    /// The sender of the stop request, until the watch is stopped.
    pub closed spec fn spec_stop_tx(&self) -> Option<S> {
        self.stop_tx
    }

    /// The handle of the watcher thread, until the watch is stopped.
    pub closed spec fn spec_join_handle(&self) -> Option<J> {
        self.join_handle
    }

    /// The handle of a watch that was just started.
    pub fn new(stop_tx: S, join_handle: J) -> (handle: WatcherHandle<S, J>)
        ensures
            handle.spec_stop_tx() == Some(stop_tx),
            handle.spec_join_handle() == Some(join_handle),
    {
        WatcherHandle { stop_tx: Some(stop_tx), join_handle: Some(join_handle) }
    }

    /// Whether the watch was stopped.
    pub fn is_stopped(&self) -> (stopped: bool)
        ensures
            stopped == (self.spec_stop_tx() is None && self.spec_join_handle() is None),
    {
        self.stop_tx.is_none() && self.join_handle.is_none()
    }

    /// Stops the watch: hands out the sender on which the caller requests
    /// the stop and the thread handle on which it waits. A second call hands
    /// out nothing.
    pub fn stop(&mut self) -> (parts: (Option<S>, Option<J>))
        ensures
            parts == (old(self).spec_stop_tx(), old(self).spec_join_handle()),
            final(self).spec_stop_tx() is None,
            final(self).spec_join_handle() is None,
    {
        let stop_tx = self.stop_tx.take();
        let join_handle = self.join_handle.take();
        (stop_tx, join_handle)
    }
}

} // verus!
