//! The routing configuration, the errors of the router, and the choice of
//! the targets that take part in a run.

use crate::channel_mixer::ChannelMixer;
use crate::config::ChannelMixMode;
use vstd::prelude::*;

verus! {

/// What is routed where: the source device and the targets, each with its
/// mix mode.
#[derive(Debug, Clone)]
pub struct RouterConfig {
    /// Identifier of the source device; `None` stands for the default device.
    pub source_device_id: Option<String>,
    /// Identifiers of the target devices, each with its mix mode.
    pub target_config: Vec<(String, ChannelMixMode)>,
}

/// What a `RouterConfig` holds.
pub struct RouterConfigView {
    pub source_device_id: Option<Seq<char>>,
    pub target_config: Seq<(Seq<char>, ChannelMixMode)>,
}

/// What each entry of a list of targets holds.
pub open spec fn target_config_views(targets: Seq<(String, ChannelMixMode)>) -> Seq<
    (Seq<char>, ChannelMixMode),
> {
    targets.map_values(|t: (String, ChannelMixMode)| (t.0@, t.1))
}

impl View for RouterConfig {
    type V = RouterConfigView;

    open spec fn view(&self) -> RouterConfigView {
        RouterConfigView {
            source_device_id: match self.source_device_id {
                Some(id) => Some(id@),
                None => None,
            },
            target_config: target_config_views(self.target_config@),
        }
    }
}

impl Default for RouterConfig {
    fn default() -> (config: RouterConfig)
        ensures
            config@.source_device_id is None,
            config@.target_config.len() == 0,
    {
        RouterConfig { source_device_id: None, target_config: Vec::new() }
    }
}

/// Why the router refuses a request or fails.
#[derive(Debug, Clone, Copy, PartialEq, Eq, Structural)]
pub enum RouterError {
    /// A call into the audio subsystem failed; holds its status code.
    NativeApiFailure(i32),
    /// No device has the identifier that was asked for.
    NotFound,
    /// None of the targets of a configuration can be used.
    NoValidTargets,
    /// A start was asked for while the pipeline was not stopped.
    AlreadyRunning,
    /// A stop was asked for while the pipeline was not running.
    NotRunning,
    /// The dispatcher handed back a result of an unexpected type.
    TypeMismatch,
}

impl RouterError {
    /// The text by which the error is shown.
    pub open spec fn spec_message(&self) -> Seq<char> {
        match self {
            RouterError::NativeApiFailure(_) => "audio subsystem call failed"@,
            RouterError::NotFound => "audio device not found"@,
            RouterError::NoValidTargets => "No valid output devices found for routing"@,
            RouterError::AlreadyRunning => "router already running"@,
            RouterError::NotRunning => "router not running"@,
            RouterError::TypeMismatch => "type mismatch in com worker response"@,
        }
    }

    /// The text by which the error is shown.
    pub fn message(&self) -> (text: &'static str)
        ensures
            text@ == self.spec_message(),
    {
        match self {
            RouterError::NativeApiFailure(_) => "audio subsystem call failed",
            RouterError::NotFound => "audio device not found",
            RouterError::NoValidTargets => "No valid output devices found for routing",
            RouterError::AlreadyRunning => "router already running",
            RouterError::NotRunning => "router not running",
            RouterError::TypeMismatch => "type mismatch in com worker response",
        }
    }
}

/// One target of a run: a device of the configuration with its mixer.
#[derive(Debug, Clone)]
pub struct ActiveTarget {
    /// Position of the target in the configuration.
    pub index: usize,
    pub device_id: String,
    pub mixer: ChannelMixer,
}

/// What an `ActiveTarget` holds.
pub struct ActiveTargetView {
    pub index: nat,
    pub device_id: Seq<char>,
    pub mode: ChannelMixMode,
}

impl View for ActiveTarget {
    type V = ActiveTargetView;

    open spec fn view(&self) -> ActiveTargetView {
        ActiveTargetView {
            index: self.index as nat,
            device_id: self.device_id@,
            mode: self.mixer.spec_mode(),
        }
    }
}

/// What each target of a list holds.
pub open spec fn target_views(targets: Seq<ActiveTarget>) -> Seq<ActiveTargetView> {
    targets.map_values(|t: ActiveTarget| t@)
}

/// The targets that a configuration names, in its order, each with the mixer
/// of its mode.
pub open spec fn configured_targets(config: RouterConfigView) -> Seq<ActiveTargetView> {
    Seq::new(
        config.target_config.len(),
        |i: int|
            ActiveTargetView {
                index: i as nat,
                device_id: config.target_config[i].0,
                mode: config.target_config[i].1,
            },
    )
}

/// Whether the item at `index` is marked usable. An item without a mark is
/// not.
pub open spec fn is_usable(usable: Seq<bool>, index: int) -> bool {
    0 <= index < usable.len() && usable[index]
}

/// The items that are marked usable, in their order.
pub open spec fn kept<T>(items: Seq<T>, usable: Seq<bool>) -> Seq<T>
    decreases items.len(),
{
    if items.len() == 0 {
        Seq::empty()
    } else {
        let earlier = kept(items.drop_last(), usable);
        if is_usable(usable, items.len() - 1) {
            earlier.push(items.last())
        } else {
            earlier
        }
    }
}

/// Where no item is marked usable, none is kept.
pub proof fn lemma_kept_none<T>(items: Seq<T>, usable: Seq<bool>)
    requires
        forall|i: int| 0 <= i < items.len() ==> !is_usable(usable, i),
    ensures
        kept(items, usable).len() == 0,
    decreases items.len(),
{
    if items.len() > 0 {
        lemma_kept_none(items.drop_last(), usable);
    }
}

/// Where every item is marked usable, all are kept.
pub proof fn lemma_kept_all<T>(items: Seq<T>, usable: Seq<bool>)
    requires
        forall|i: int| 0 <= i < items.len() ==> is_usable(usable, i),
    ensures
        kept(items, usable) == items,
    decreases items.len(),
{
    if items.len() > 0 {
        lemma_kept_all(items.drop_last(), usable);
        assert(items.drop_last().push(items.last()) =~= items);
    } else {
        assert(items =~= Seq::empty());
    }
}

/// Where every item but the one at `failed` is marked usable, the others are
/// kept, in their order.
pub proof fn lemma_kept_all_but_one<T>(items: Seq<T>, usable: Seq<bool>, failed: int)
    requires
        0 <= failed < items.len(),
        !is_usable(usable, failed),
        forall|i: int| 0 <= i < items.len() && i != failed ==> is_usable(usable, i),
    ensures
        kept(items, usable) == items.remove(failed),
    decreases items.len(),
{
    let last = items.len() - 1;
    if failed == last {
        lemma_kept_all(items.drop_last(), usable);
        assert(items.remove(failed) =~= items.drop_last());
    } else {
        lemma_kept_all_but_one(items.drop_last(), usable, failed);
        assert(items.drop_last().remove(failed).push(items.last()) =~= items.remove(failed));
    }
}

/// Every kept item is an item that is marked usable, and no more items are
/// kept than there are.
pub proof fn lemma_kept_is_selection<T>(items: Seq<T>, usable: Seq<bool>)
    ensures
        kept(items, usable).len() <= items.len(),
        forall|k: int|
            0 <= k < kept(items, usable).len() ==> exists|i: int|
                0 <= i < items.len() && is_usable(usable, i) && items[i] == #[trigger] kept(
                    items,
                    usable,
                )[k],
    decreases items.len(),
{
    if items.len() > 0 {
        let shorter = items.drop_last();
        lemma_kept_is_selection(shorter, usable);
        let result = kept(items, usable);
        let earlier = kept(shorter, usable);
        assert forall|k: int| 0 <= k < result.len() implies exists|i: int|
            0 <= i < items.len() && is_usable(usable, i) && items[i] == #[trigger] result[k] by {
            if k < earlier.len() {
                assert(result[k] == earlier[k]);
                let i = choose|i: int|
                    0 <= i < shorter.len() && is_usable(usable, i) && shorter[i] == earlier[k];
                assert(0 <= i < items.len() && is_usable(usable, i) && items[i] == result[k]);
            } else {
                let i = items.len() - 1;
                assert(0 <= i < items.len() && is_usable(usable, i) && items[i] == result[k]);
            }
        }
    }
}

/// The targets of a configuration, each with a mixer of its mode.
pub fn all_targets(config: &RouterConfig) -> (targets: Vec<ActiveTarget>)
    ensures
        target_views(targets@) == configured_targets(config@),
{
    let mut targets: Vec<ActiveTarget> = Vec::new();
    let mut index: usize = 0;
    while index < config.target_config.len()
        invariant
            index <= config.target_config@.len(),
            targets@.len() == index,
            forall|i: int|
                0 <= i < index ==> (#[trigger] targets@[i])@ == configured_targets(config@)[i],
        decreases config.target_config@.len() - index,
    {
        let entry = &config.target_config[index];
        let target = ActiveTarget {
            index,
            device_id: entry.0.clone(),
            mixer: ChannelMixer::new(entry.1),
        };
        targets.push(target);
        index = index + 1;
    }
    assert(target_views(targets@) =~= configured_targets(config@));
    targets
}

/// What each pair of a target and its companion holds.
pub open spec fn pair_views<T>(pairs: Seq<(ActiveTarget, T)>) -> Seq<(ActiveTargetView, T)> {
    pairs.map_values(|p: (ActiveTarget, T)| (p.0@, p.1))
}

/// Whether something was made for the item at `index`.
pub open spec fn is_made<T>(made: Seq<Option<T>>, index: int) -> bool {
    0 <= index < made.len() && made[index] is Some
}

/// The items for which something was made, in their order, each with what
/// was made for it.
pub open spec fn paired<A, T>(items: Seq<A>, made: Seq<Option<T>>) -> Seq<(A, T)>
    decreases items.len(),
{
    if items.len() == 0 {
        Seq::empty()
    } else {
        let earlier = paired(items.drop_last(), made);
        if is_made(made, items.len() - 1) {
            earlier.push((items.last(), made[items.len() - 1]->0))
        } else {
            earlier
        }
    }
}

/// The items that are paired are the items that are kept where an item
/// counts as usable if something was made for it.
pub proof fn lemma_paired_items_are_kept<A, T>(items: Seq<A>, made: Seq<Option<T>>)
    ensures
        paired(items, made).map_values(|p: (A, T)| p.0) == kept(
            items,
            made.map_values(|m: Option<T>| m is Some),
        ),
    decreases items.len(),
{
    let usable = made.map_values(|m: Option<T>| m is Some);
    let first = |p: (A, T)| p.0;
    if items.len() > 0 {
        lemma_paired_items_are_kept(items.drop_last(), made);
        let earlier = paired(items.drop_last(), made);
        if is_made(made, items.len() - 1) {
            let pair = (items.last(), made[items.len() - 1]->0);
            assert(earlier.push(pair).map_values(first) =~= earlier.map_values(first).push(
                items.last(),
            ));
        }
    } else {
        assert(paired(items, made).map_values(first) =~= Seq::<A>::empty());
    }
}

/// Where something was made for every item but the one at `failed`, the
/// other items are paired, in their order: one failure costs one item, and
/// no other.
pub proof fn lemma_one_failure_drops_one_item<A, T>(
    items: Seq<A>,
    made: Seq<Option<T>>,
    failed: int,
)
    requires
        0 <= failed < items.len(),
        !is_made(made, failed),
        forall|i: int| 0 <= i < items.len() && i != failed ==> is_made(made, i),
    ensures
        paired(items, made).len() == items.len() - 1,
        paired(items, made).map_values(|p: (A, T)| p.0) == items.remove(failed),
{
    let usable = made.map_values(|m: Option<T>| m is Some);
    lemma_paired_items_are_kept(items, made);
    assert forall|i: int| 0 <= i < items.len() && i != failed implies is_usable(usable, i) by {
        assert(is_made(made, i));
    }
    lemma_kept_all_but_one(items, usable, failed);
    assert(paired(items, made).len() == paired(items, made).map_values(|p: (A, T)| p.0).len());
}

/// Where something was made for every item, every item is paired.
pub proof fn lemma_no_failure_keeps_all_items<A, T>(items: Seq<A>, made: Seq<Option<T>>)
    requires
        forall|i: int| 0 <= i < items.len() ==> is_made(made, i),
    ensures
        paired(items, made).map_values(|p: (A, T)| p.0) == items,
{
    let usable = made.map_values(|m: Option<T>| m is Some);
    lemma_paired_items_are_kept(items, made);
    assert forall|i: int| 0 <= i < items.len() implies is_usable(usable, i) by {
        assert(is_made(made, i));
    }
    lemma_kept_all(items, usable);
}

/// Where nothing was made for any item, no item is paired.
pub proof fn lemma_nothing_made_nothing_paired<A, T>(items: Seq<A>, made: Seq<Option<T>>)
    requires
        forall|i: int| 0 <= i < items.len() ==> !is_made(made, i),
    ensures
        paired(items, made).len() == 0,
    decreases items.len(),
{
    if items.len() > 0 {
        lemma_nothing_made_nothing_paired(items.drop_last(), made);
    }
}

/// Items for which nothing could have been made, because `made` ends before
/// them, are not paired.
proof fn lemma_paired_ignores_items_beyond<A, T>(items: Seq<A>, made: Seq<Option<T>>, limit: int)
    requires
        made.len() <= limit <= items.len(),
    ensures
        paired(items, made) == paired(items.take(limit), made),
    decreases items.len(),
{
    if limit < items.len() {
        lemma_paired_ignores_items_beyond(items.drop_last(), made, limit);
        assert(items.drop_last().take(limit) =~= items.take(limit));
    } else {
        assert(items.take(limit) =~= items);
    }
}

/// Pairs each target with what was made for it. `made` holds, by the
/// position of the target, what could be made; a target for which nothing
/// was made, or for which `made` has no entry, is dropped. Fails with
/// `NoValidTargets` exactly if no target is left.
pub fn pair_targets<T>(targets: &Vec<ActiveTarget>, made: Vec<Option<T>>) -> (outcome: Result<
    Vec<(ActiveTarget, T)>,
    RouterError,
>)
    ensures
        match outcome {
            Ok(pairs) => pairs@.len() > 0 && pair_views(pairs@) == paired(
                target_views(targets@),
                made@,
            ),
            Err(error) => error == RouterError::NoValidTargets && paired(
                target_views(targets@),
                made@,
            ).len() == 0,
        },
        (forall|i: int| 0 <= i < targets@.len() ==> !is_made(made@, i)) ==> outcome is Err,
{
    let ghost views = target_views(targets@);
    let ghost all = made@;
    let count = made.len();
    let mut pairs: Vec<(ActiveTarget, T)> = Vec::new();
    let mut index: usize = 0;
    for item in it: made
        invariant
            it.seq() == all,
            all.len() == count,
            index == it.index(),
            views == target_views(targets@),
            pair_views(pairs@) == paired(
                views.take(
                    if index <= targets@.len() {
                        index as int
                    } else {
                        targets@.len() as int
                    },
                ),
                all,
            ),
    {
        let ghost before = pairs@;
        assert(index < count);
        if index < targets.len() {
            let ghost longer = views.take(index + 1);
            assert(longer.drop_last() =~= views.take(index as int));
            assert(longer.last() == targets@[index as int]@);
            match item {
                Some(companion) => {
                    let target = &targets[index];
                    pairs.push(
                        (
                            ActiveTarget {
                                index: target.index,
                                device_id: target.device_id.clone(),
                                mixer: target.mixer,
                            },
                            companion,
                        ),
                    );
                    assert(pair_views(pairs@) =~= pair_views(before).push(
                        (targets@[index as int]@, companion),
                    ));
                },
                None => {},
            }
        }
        index = index + 1;
    }
    proof {
        if all.len() <= targets@.len() {
            lemma_paired_ignores_items_beyond(views, all, all.len() as int);
        } else {
            assert(views.take(targets@.len() as int) =~= views);
        }
        assert(pairs@.len() == pair_views(pairs@).len());
        if forall|i: int| 0 <= i < targets@.len() ==> !is_made(all, i) {
            lemma_nothing_made_nothing_paired(views, all);
        }
    }
    if pairs.len() == 0 {
        Err(RouterError::NoValidTargets)
    } else {
        Ok(pairs)
    }
}

} // verus!
