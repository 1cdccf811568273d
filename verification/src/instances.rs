//! The plugins that are running.

use crate::error::PluginError;
use crate::registry::Registry;
use crate::text;
use vstd::prelude::*;

verus! {

/// How a plugin with a process of its own is run.
#[derive(Clone, Copy, Debug, PartialEq, Eq, Structural)]
pub enum PluginChildType {
    Wine,
    Native,
    Node,
}

/// A running plugin. `C` is the process of one that has its own.
#[derive(Debug, PartialEq, Eq)]
pub enum PluginInstance<C> {
    Webview,
    Wine(C),
    Native(C),
    Node(C),
}

impl<C> PluginInstance<C> {
    /// The process of the plugin.
    pub open spec fn child(self) -> Option<C> {
        match self {
            PluginInstance::Webview => None,
            PluginInstance::Wine(child) => Some(child),
            PluginInstance::Native(child) => Some(child),
            PluginInstance::Node(child) => Some(child),
        }
    }
}

/// The instance that a started process is.
pub open spec fn instance_of<C>(child_type: PluginChildType, child: C) -> PluginInstance<C> {
    match child_type {
        PluginChildType::Wine => PluginInstance::Wine(child),
        PluginChildType::Native => PluginInstance::Native(child),
        PluginChildType::Node => PluginInstance::Node(child),
    }
}

/// Records the process that was started for `plugin`, and hands back the
/// instance that it replaces.
pub fn record_child<C>(
    instances: &mut Registry<PluginInstance<C>>,
    plugin: String,
    child_type: PluginChildType,
    child: C,
) -> (replaced: Option<PluginInstance<C>>)
    ensures
        final(instances)@ == old(instances)@.insert(plugin@, instance_of(child_type, child)),
        match replaced {
            Some(instance) => old(instances)@.contains_key(plugin@) && instance
                == old(instances)@[plugin@],
            None => !old(instances)@.contains_key(plugin@),
        },
{
    instances.insert(
        plugin,
        match child_type {
            PluginChildType::Wine => PluginInstance::Wine(child),
            PluginChildType::Native => PluginInstance::Native(child),
            PluginChildType::Node => PluginInstance::Node(child),
        },
    )
}

/// Records that `plugin` runs in a window, and hands back the instance that this
/// replaces.
pub fn record_webview<C>(
    instances: &mut Registry<PluginInstance<C>>,
    plugin: String,
) -> (replaced: Option<PluginInstance<C>>)
    ensures
        final(instances)@ == old(instances)@.insert(plugin@, PluginInstance::Webview),
        match replaced {
            Some(instance) => old(instances)@.contains_key(plugin@) && instance
                == old(instances)@[plugin@],
            None => !old(instances)@.contains_key(plugin@),
        },
{
    instances.insert(plugin, PluginInstance::Webview)
}

/// What to do to stop a plugin.
#[derive(Debug, PartialEq, Eq)]
pub enum Shutdown<C> {
    /// Close the window with this label.
    CloseWindow(String),
    /// Kill the process and wait for its end.
    Kill(C),
}

/// The label of the window that a plugin runs in.
pub open spec fn window_label(plugin: Seq<char>) -> Seq<char> {
    text::underscored(plugin)
}

/// Takes a plugin out of those that are running, and says how to stop it.
pub fn deactivate_plugin<C>(
    instances: &mut Registry<PluginInstance<C>>,
    plugin: &str,
) -> (result: Result<Shutdown<C>, PluginError>)
    ensures
        final(instances)@ == old(instances)@.remove(plugin@),
        result is Ok <==> old(instances)@.contains_key(plugin@),
        match result {
            Ok(Shutdown::CloseWindow(label)) => old(instances)@[plugin@] is Webview && label@
                == window_label(plugin@),
            Ok(Shutdown::Kill(child)) => old(instances)@[plugin@].child() == Some(child),
            Err(error) => error matches PluginError::NoInstance(name) && name@ == plugin@,
        },
{
    match instances.remove(plugin) {
        Some(PluginInstance::Webview) => Ok(Shutdown::CloseWindow(text::underscore_dots(plugin))),
        Some(PluginInstance::Wine(child)) => Ok(Shutdown::Kill(child)),
        Some(PluginInstance::Native(child)) => Ok(Shutdown::Kill(child)),
        Some(PluginInstance::Node(child)) => Ok(Shutdown::Kill(child)),
        None => Err(PluginError::NoInstance(plugin.to_owned())),
    }
}

/// Whether `plugins` are the plugins for which `wanted` holds, each once.
pub open spec fn are_exactly(plugins: Seq<String>, wanted: spec_fn(Seq<char>) -> bool) -> bool {
    &&& forall|i: int| 0 <= i < plugins.len() ==> wanted(#[trigger] plugins[i]@)
    &&& forall|plugin: Seq<char>| #[trigger]
        wanted(plugin) ==> exists|i: int| 0 <= i < plugins.len() && #[trigger] plugins[i]@ == plugin
    &&& forall|i: int, j: int|
        0 <= i < j < plugins.len() ==> #[trigger] plugins[i]@ != #[trigger] plugins[j]@
}

/// The plugins to deactivate in order to deactivate all, in no particular order.
pub fn deactivate_plugins<C>(instances: &Registry<PluginInstance<C>>) -> (plugins: Vec<String>)
    ensures
        are_exactly(plugins@, |plugin: Seq<char>| instances@.contains_key(plugin)),
{
    instances.keys()
}

/// What a filter keeps of a list and its next element.
proof fn lemma_filter_next<A>(all: Seq<A>, i: int, keep: spec_fn(A) -> bool)
    requires
        0 <= i < all.len(),
    ensures
        all.take(i + 1).filter(keep) == if keep(all[i]) {
            all.take(i).filter(keep).push(all[i])
        } else {
            all.take(i).filter(keep)
        },
{
    reveal(Seq::filter);
    assert(all.take(i + 1).drop_last() =~= all.take(i));
    assert(all.take(i + 1).last() == all[i]);
}

/// A filter adds no duplicates.
proof fn lemma_filter_keeps_distinct<A>(all: Seq<A>, keep: spec_fn(A) -> bool)
    requires
        all.no_duplicates(),
    ensures
        all.filter(keep).no_duplicates(),
    decreases all.len(),
{
    reveal(Seq::filter);
    if all.len() > 0 {
        let first = all.drop_last();
        let last = all.last();
        lemma_filter_keeps_distinct(first, keep);
        if first.filter(keep).contains(last) {
            first.lemma_filter_contains_rev(keep, last);
            let i = choose|i: int| 0 <= i < first.len() && first[i] == last;
            assert(all[i] == all[all.len() - 1]);
        }
    }
}

/// Those of `keys`, which are exactly the plugins for which `all` holds, that a
/// filter for `wanted` keeps are exactly the plugins for which `wanted` holds.
proof fn lemma_filtered_are_exactly(
    keys: Seq<String>,
    plugins: Seq<String>,
    all: spec_fn(Seq<char>) -> bool,
    wanted: spec_fn(Seq<char>) -> bool,
)
    requires
        are_exactly(keys, all),
        text::text_views(plugins) == text::text_views(keys).filter(wanted),
        forall|plugin: Seq<char>| #[trigger] wanted(plugin) ==> all(plugin),
    ensures
        are_exactly(plugins, wanted),
{
    let names = text::text_views(keys);
    let kept = names.filter(wanted);
    broadcast use vstd::seq_lib::group_filter_ensures;

    assert forall|i: int, j: int| 0 <= i < names.len() && 0 <= j < names.len() && i
        != j implies names[i] != names[j] by {
        assert(names[i] == keys[i]@ && names[j] == keys[j]@);
    }
    lemma_filter_keeps_distinct(names, wanted);
    assert forall|i: int| 0 <= i < plugins.len() implies wanted(#[trigger] plugins[i]@) by {
        assert(kept[i] == plugins[i]@);
    }
    assert forall|plugin: Seq<char>| #[trigger] wanted(plugin) implies exists|i: int|
        0 <= i < plugins.len() && #[trigger] plugins[i]@ == plugin by {
        assert(all(plugin));
        let k = choose|k: int| 0 <= k < keys.len() && #[trigger] keys[k]@ == plugin;
        assert(names[k] == plugin);
        assert(kept.contains(names[k]));
        let i = choose|i: int| 0 <= i < kept.len() && kept[i] == plugin;
        assert(plugins[i]@ == plugin);
    }
    assert forall|i: int, j: int| 0 <= i < j < plugins.len() implies #[trigger] plugins[i]@
        != #[trigger] plugins[j]@ by {
        assert(kept[i] == plugins[i]@ && kept[j] == plugins[j]@);
    }
}

/// The plugins that run in windows, in no particular order.
pub fn webviews<C>(instances: &Registry<PluginInstance<C>>) -> (plugins: Vec<String>)
    ensures
        are_exactly(
            plugins@,
            |plugin: Seq<char>| instances@.contains_key(plugin) && instances@[plugin] is Webview,
        ),
{
    let ghost wanted = |plugin: Seq<char>|
        instances@.contains_key(plugin) && instances@[plugin] is Webview;
    let keys = deactivate_plugins(instances);
    let ghost names = text::text_views(keys@);
    let mut plugins: Vec<String> = Vec::new();
    let mut i: usize = 0;
    proof {
        reveal(Seq::filter);
        assert(text::text_views(plugins@) =~= names.take(0).filter(wanted));
    }
    while i < keys.len()
        invariant
            i <= keys.len(),
            names == text::text_views(keys@),
            wanted == (|plugin: Seq<char>|
                instances@.contains_key(plugin) && instances@[plugin] is Webview),
            text::text_views(plugins@) == names.take(i as int).filter(wanted),
        decreases keys.len() - i,
    {
        let ghost before = plugins@;
        let is_webview = match instances.get(keys[i].as_str()) {
            Some(PluginInstance::Webview) => true,
            _ => false,
        };
        assert(is_webview == wanted(names[i as int]));
        proof {
            lemma_filter_next(names, i as int, wanted);
        }
        if is_webview {
            plugins.push(keys[i].clone());
            assert(text::text_views(plugins@) =~= text::text_views(before).push(
                names[i as int],
            ));
        }
        i += 1;
    }
    proof {
        assert(names.take(names.len() as int) =~= names);
        lemma_filtered_are_exactly(
            keys@,
            plugins@,
            |plugin: Seq<char>| instances@.contains_key(plugin),
            wanted,
        );
    }
    plugins
}

/// What is left of `running` after `plugins` have been deactivated, one after
/// the other.
pub open spec fn after_deactivating<C>(
    running: Map<Seq<char>, PluginInstance<C>>,
    plugins: Seq<String>,
) -> Map<Seq<char>, PluginInstance<C>>
    decreases plugins.len(),
{
    if plugins.len() == 0 {
        running
    } else {
        after_deactivating(running, plugins.drop_last()).remove(plugins.last()@)
    }
}

proof fn lemma_after_deactivating<C>(
    running: Map<Seq<char>, PluginInstance<C>>,
    plugins: Seq<String>,
)
    ensures
        forall|plugin: Seq<char>| #[trigger]
            after_deactivating(running, plugins).contains_key(plugin) <==> running.contains_key(
                plugin,
            ) && forall|i: int| 0 <= i < plugins.len() ==> #[trigger] plugins[i]@ != plugin,
    decreases plugins.len(),
{
    if plugins.len() > 0 {
        let first = plugins.drop_last();
        lemma_after_deactivating(running, first);
        assert forall|plugin: Seq<char>| #[trigger]
            after_deactivating(running, plugins).contains_key(plugin) <==> running.contains_key(
                plugin,
            ) && forall|i: int| 0 <= i < plugins.len() ==> #[trigger] plugins[i]@ != plugin by {
            if after_deactivating(running, plugins).contains_key(plugin) {
                assert(after_deactivating(running, first).contains_key(plugin));
                assert forall|i: int| 0 <= i < plugins.len() implies #[trigger] plugins[i]@
                    != plugin by {
                    if i < first.len() {
                        assert(first[i]@ != plugin);
                    }
                }
            } else if running.contains_key(plugin) {
                if plugin != plugins.last()@ {
                    assert(!after_deactivating(running, first).contains_key(plugin));
                    let i = choose|i: int| 0 <= i < first.len() && #[trigger] first[i]@ == plugin;
                    assert(plugins[i]@ == plugin);
                } else {
                    assert(plugins[plugins.len() - 1]@ == plugin);
                }
            }
        }
    }
}

/// Deactivating all plugins leaves none running.
pub proof fn law_deactivating_all_leaves_none<C>(
    running: Map<Seq<char>, PluginInstance<C>>,
    plugins: Seq<String>,
)
    requires
        are_exactly(plugins, |plugin: Seq<char>| running.contains_key(plugin)),
    ensures
        after_deactivating(running, plugins) == Map::<Seq<char>, PluginInstance<C>>::empty(),
{
    let wanted = |plugin: Seq<char>| running.contains_key(plugin);
    lemma_after_deactivating(running, plugins);
    assert forall|plugin: Seq<char>| !(#[trigger] after_deactivating(running, plugins).contains_key(
        plugin,
    )) by {
        if running.contains_key(plugin) {
            assert(wanted(plugin));
        }
    }
    assert(after_deactivating(running, plugins) =~= Map::<Seq<char>, PluginInstance<C>>::empty());
}

/// A plugin that was started is one that can be stopped: what was recorded for
/// it last is what deactivating takes out, and the other plugins are as they
/// were before it was started.
pub proof fn law_deactivating_undoes_recording<C>(
    running: Map<Seq<char>, PluginInstance<C>>,
    plugin: Seq<char>,
    instance: PluginInstance<C>,
)
    ensures
        running.insert(plugin, instance).contains_key(plugin),
        running.insert(plugin, instance)[plugin] == instance,
        running.insert(plugin, instance).remove(plugin) == running.remove(plugin),
{
    assert(running.insert(plugin, instance).remove(plugin) =~= running.remove(plugin));
}

/// A started process is recorded under the kind with which it was started, and is
/// the one to kill. Only a window has no process.
pub proof fn law_processes_are_kept_by_kind<C>(child_type: PluginChildType, child: C)
    ensures
        child_type == PluginChildType::Wine ==> instance_of(child_type, child)
            == PluginInstance::Wine(child),
        child_type == PluginChildType::Native ==> instance_of(child_type, child)
            == PluginInstance::Native(child),
        child_type == PluginChildType::Node ==> instance_of(child_type, child)
            == PluginInstance::Node(child),
        instance_of(child_type, child).child() == Some(child),
        PluginInstance::<C>::Webview.child() is None,
{
}

/// A plugin's window is labelled with its name, with an underscore for each dot.
pub proof fn law_windows_are_labelled_by_name(plugin: Seq<char>)
    ensures
        window_label(plugin).len() == plugin.len(),
        forall|i: int|
            0 <= i < plugin.len() ==> #[trigger] window_label(plugin)[i] == if plugin[i] == '.' {
                '_'
            } else {
                plugin[i]
            },
{
}

/// A list of exactly the wanted plugins has each of them once, and no other.
pub proof fn law_exact_lists(plugins: Seq<String>, wanted: spec_fn(Seq<char>) -> bool)
    requires
        are_exactly(plugins, wanted),
    ensures
        forall|plugin: Seq<char>| #[trigger]
            wanted(plugin) <==> text::text_views(plugins).contains(plugin),
        text::text_views(plugins).no_duplicates(),
{
    let names = text::text_views(plugins);
    assert forall|plugin: Seq<char>| #[trigger] wanted(plugin) <==> names.contains(plugin) by {
        if wanted(plugin) {
            let i = choose|i: int| 0 <= i < plugins.len() && #[trigger] plugins[i]@ == plugin;
            assert(names[i] == plugin);
        }
        if names.contains(plugin) {
            let i = choose|i: int| 0 <= i < names.len() && names[i] == plugin;
            assert(wanted(plugins[i]@));
        }
    }
    assert forall|i: int, j: int| 0 <= i < names.len() && 0 <= j < names.len() && i
        != j implies names[i] != names[j] by {
        assert(plugins[i]@ != plugins[j]@);
    }
}

/// Deactivating some plugins takes out those and no others.
pub proof fn law_deactivating_takes_out_only_what_is_named<C>(
    running: Map<Seq<char>, PluginInstance<C>>,
    plugins: Seq<String>,
    plugin: Seq<char>,
)
    ensures
        after_deactivating(running, plugins).contains_key(plugin) <==> running.contains_key(plugin)
            && !text::text_views(plugins).contains(plugin),
        after_deactivating(running, plugins).contains_key(plugin) ==> after_deactivating(
            running,
            plugins,
        )[plugin] == running[plugin],
    decreases plugins.len(),
{
    let names = text::text_views(plugins);
    if plugins.len() > 0 {
        let first = plugins.drop_last();
        law_deactivating_takes_out_only_what_is_named(running, first, plugin);
        assert(names =~= text::text_views(first).push(plugins.last()@));
        if text::text_views(first).contains(plugin) {
            let i = choose|i: int|
                0 <= i < first.len() && text::text_views(first)[i] == plugin;
            assert(names[i] == plugin);
        }
        assert(names[names.len() - 1] == plugins.last()@);
        if names.contains(plugin) && plugin != plugins.last()@ {
            let i = choose|i: int| 0 <= i < names.len() && names[i] == plugin;
            assert(text::text_views(first)[i] == plugin);
        }
    }
}

} // verus!
