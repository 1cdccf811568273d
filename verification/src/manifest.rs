//! What a plugin says of itself.

use crate::fonts;
use crate::registry::Registry;
use crate::text;
use vstd::prelude::*;

verus! {

/// The touch strip of an action.
pub struct Encoder {
    pub icon: String,
    pub background: String,
}

#[verifier::ext_equal]
pub struct EncoderView {
    pub icon: Seq<char>,
    pub background: Seq<char>,
}

impl View for Encoder {
    type V = EncoderView;

    open spec fn view(&self) -> EncoderView {
        EncoderView { icon: self.icon@, background: self.background@ }
    }
}

/// One of the looks of an action.
pub struct ActionState {
    pub image: String,
    pub family: String,
}

#[verifier::ext_equal]
pub struct ActionStateView {
    pub image: Seq<char>,
    pub family: Seq<char>,
}

impl View for ActionState {
    type V = ActionStateView;

    open spec fn view(&self) -> ActionStateView {
        ActionStateView { image: self.image@, family: self.family@ }
    }
}

/// An action that a plugin offers. `details` is what else there is to know of
/// it, and is handed through untouched.
pub struct Action<D> {
    pub uuid: String,
    pub plugin: String,
    pub icon: String,
    pub property_inspector: String,
    pub encoder: Option<Encoder>,
    pub states: Vec<ActionState>,
    pub details: D,
}

#[verifier::ext_equal]
pub struct ActionView<D> {
    pub uuid: Seq<char>,
    pub plugin: Seq<char>,
    pub icon: Seq<char>,
    pub property_inspector: Seq<char>,
    pub encoder: Option<EncoderView>,
    pub states: Seq<ActionStateView>,
    pub details: D,
}

impl<D> View for Action<D> {
    type V = ActionView<D>;

    open spec fn view(&self) -> ActionView<D> {
        ActionView {
            uuid: self.uuid@,
            plugin: self.plugin@,
            icon: self.icon@,
            property_inspector: self.property_inspector@,
            encoder: match self.encoder {
                Some(encoder) => Some(encoder@),
                None => None,
            },
            states: self.states@.map_values(|state: ActionState| state@),
            details: self.details,
        }
    }
}

/// The actions of a list, as values.
pub open spec fn action_views<D>(actions: Seq<Action<D>>) -> Seq<ActionView<D>> {
    actions.map_values(|action: Action<D>| action@)
}

/// An operating system that a plugin runs on.
pub struct OperatingSystem {
    pub platform: String,
}

/// Where the code of a plugin is, for all operating systems, for one, and for
/// one build target.
pub struct CodePaths {
    pub any: Option<String>,
    pub windows: Option<String>,
    pub mac: Option<String>,
    pub linux: Option<String>,
    pub by_target: Option<Registry<String>>,
}

/// The manifest of a plugin.
pub struct Manifest<D> {
    pub name: String,
    pub version: String,
    pub category: String,
    pub category_icon: Option<String>,
    pub actions: Vec<Action<D>>,
    pub property_inspector_path: Option<String>,
    pub device_namespace: Option<String>,
    pub os: Vec<OperatingSystem>,
    pub code: CodePaths,
    pub applications_to_monitor: Option<Registry<Vec<String>>>,
}

/// The files that an action refers to. The same shape holds the paths as the
/// manifest gives them and, once they have been looked up, where the files are.
pub struct ActionPaths {
    pub icon: String,
    pub property_inspector: Option<String>,
    pub encoder_icon: Option<String>,
    pub encoder_background: Option<String>,
    /// One for each state; none where the state shows the icon of the action.
    pub states: Vec<Option<String>>,
}

#[verifier::ext_equal]
pub struct ActionPathsView {
    pub icon: Seq<char>,
    pub property_inspector: Option<Seq<char>>,
    pub encoder_icon: Option<Seq<char>>,
    pub encoder_background: Option<Seq<char>>,
    pub states: Seq<Option<Seq<char>>>,
}

impl View for ActionPaths {
    type V = ActionPathsView;

    open spec fn view(&self) -> ActionPathsView {
        ActionPathsView {
            icon: self.icon@,
            property_inspector: text::optional_text(self.property_inspector),
            encoder_icon: text::optional_text(self.encoder_icon),
            encoder_background: text::optional_text(self.encoder_background),
            states: self.states@.map_values(|path: Option<String>| text::optional_text(path)),
        }
    }
}

/// The files that a manifest refers to.
pub struct ManifestPaths {
    pub category_icon: Option<String>,
    pub actions: Vec<ActionPaths>,
}

/// `text`, or nothing where it is empty.
pub open spec fn unless_empty(text: Seq<char>) -> Option<Seq<char>> {
    if text.len() == 0 {
        None
    } else {
        Some(text)
    }
}

/// The image of a state, or nothing where it stands for the icon of the action.
pub open spec fn own_image(image: Seq<char>) -> Option<Seq<char>> {
    if image == "actionDefaultImage"@ {
        None
    } else {
        Some(image)
    }
}

/// The files that `action` refers to. An action without a property inspector
/// has that of the plugin, `inspector`, if there is one.
pub open spec fn action_paths<D>(
    action: ActionView<D>,
    inspector: Option<Seq<char>>,
) -> ActionPathsView {
    ActionPathsView {
        icon: action.icon,
        property_inspector: match unless_empty(action.property_inspector) {
            Some(path) => Some(path),
            None => inspector,
        },
        encoder_icon: match action.encoder {
            Some(encoder) => unless_empty(encoder.icon),
            None => None,
        },
        encoder_background: match action.encoder {
            Some(encoder) => unless_empty(encoder.background),
            None => None,
        },
        states: action.states.map_values(|state: ActionStateView| own_image(state.image)),
    }
}

/// `path`, or `fallback` where there is none.
pub open spec fn path_or(path: Option<Seq<char>>, fallback: Seq<char>) -> Seq<char> {
    match path {
        Some(path) => path,
        None => fallback,
    }
}

/// `action` as an action of `plugin`, with its files where `found` says.
pub open spec fn prepared_action<D>(
    action: ActionView<D>,
    plugin: Seq<char>,
    found: ActionPathsView,
) -> ActionView<D> {
    ActionView {
        uuid: action.uuid,
        plugin,
        icon: found.icon,
        property_inspector: path_or(found.property_inspector, action.property_inspector),
        encoder: match action.encoder {
            Some(encoder) => Some(
                EncoderView {
                    icon: path_or(found.encoder_icon, encoder.icon),
                    background: path_or(found.encoder_background, encoder.background),
                },
            ),
            None => None,
        },
        states: Seq::new(
            action.states.len(),
            |i: int|
                ActionStateView {
                    image: path_or(found.states[i], found.icon),
                    family: fonts::shown_family(action.states[i].family),
                },
        ),
        details: action.details,
    }
}

/// Whether `prepared` shows, for each state of `action` whose font family is
/// ASCII, the font that is shown for it.
pub open spec fn shows_ascii_families<D>(action: ActionView<D>, prepared: ActionView<D>) -> bool {
    forall|i: int|
        0 <= i < action.states.len() && vstd::utf8::is_ascii_chars(action.states[i].family)
            ==> (#[trigger] prepared.states[i]).family == fonts::ascii_shown_family(
            action.states[i].family,
        )
}

fn copy_unless_empty(text: &String) -> (result: Option<String>)
    ensures
        text::optional_text(result) == unless_empty(text@),
{
    if text.as_str().is_empty() {
        None
    } else {
        Some(text.clone())
    }
}

impl<D> Action<D> {
    /// The files to look up before the action can be offered.
    pub fn paths(&self, inspector: &Option<String>) -> (result: ActionPaths)
        ensures
            result@ == action_paths(self@, text::optional_text(*inspector)),
    {
        let property_inspector = match copy_unless_empty(&self.property_inspector) {
            Some(path) => Some(path),
            None => inspector.clone(),
        };
        let (encoder_icon, encoder_background) = match &self.encoder {
            Some(encoder) => (
                copy_unless_empty(&encoder.icon),
                copy_unless_empty(&encoder.background),
            ),
            None => (None, None),
        };
        let mut states: Vec<Option<String>> = Vec::new();
        let mut i: usize = 0;
        while i < self.states.len()
            invariant
                i <= self.states.len(),
                states@.len() == i,
                forall|j: int|
                    0 <= j < i ==> text::optional_text(#[trigger] states@[j]) == own_image(
                        self.states@[j].image@,
                    ),
            decreases self.states.len() - i,
        {
            let image = &self.states[i].image;
            states.push(
                if text::same_text(image.as_str(), "actionDefaultImage") {
                    None
                } else {
                    Some(image.clone())
                },
            );
            i += 1;
        }
        let result = ActionPaths {
            icon: self.icon.clone(),
            property_inspector,
            encoder_icon,
            encoder_background,
            states,
        };
        assert(result@ =~= action_paths(self@, text::optional_text(*inspector)));
        result
    }

    /// Makes this an action of `plugin`, with its files where `found` says.
    pub fn prepare(self, plugin: &str, found: &ActionPaths) -> (result: Action<D>)
        requires
            found.states@.len() == self.states@.len(),
        ensures
            result@ == prepared_action(self@, plugin@, found@),
            shows_ascii_families(self@, result@),
    {
        let ghost before = self@;
        let Action { uuid, plugin: _, icon: _, property_inspector, encoder, states, details } = self;
        let property_inspector = match &found.property_inspector {
            Some(path) => path.clone(),
            None => property_inspector,
        };
        let encoder = match encoder {
            Some(encoder) => Some(
                Encoder {
                    icon: match &found.encoder_icon {
                        Some(path) => path.clone(),
                        None => encoder.icon,
                    },
                    background: match &found.encoder_background {
                        Some(path) => path.clone(),
                        None => encoder.background,
                    },
                },
            ),
            None => None,
        };
        let mut prepared: Vec<ActionState> = Vec::new();
        let mut i: usize = 0;
        while i < states.len()
            invariant
                i <= states.len(),
                found.states@.len() == states@.len(),
                prepared@.len() == i,
                forall|j: int|
                    0 <= j < i ==> (#[trigger] prepared@[j])@ == (ActionStateView {
                        image: path_or(text::optional_text(found.states@[j]), found.icon@),
                        family: fonts::shown_family(states@[j].family@),
                    }),
                forall|j: int| #![trigger prepared@[j]]
                    0 <= j < i && vstd::utf8::is_ascii_chars(states@[j].family@)
                        ==> prepared@[j].family@ == fonts::ascii_shown_family(
                        states@[j].family@,
                    ),
            decreases states.len() - i,
        {
            let image = match &found.states[i] {
                Some(path) => path.clone(),
                None => found.icon.clone(),
            };
            prepared.push(ActionState { image, family: fonts::show_family(states[i].family.clone()) });
            i += 1;
        }
        let result = Action {
            uuid,
            plugin: plugin.to_owned(),
            icon: found.icon.clone(),
            property_inspector,
            encoder,
            states: prepared,
            details,
        };
        assert(result@ =~= prepared_action(before, plugin@, found@));
        assert forall|j: int|
            0 <= j < before.states.len() && vstd::utf8::is_ascii_chars(
                before.states[j].family,
            ) implies (#[trigger] result@.states[j]).family == fonts::ascii_shown_family(
            before.states[j].family,
        ) by {
            assert(result@.states[j] == prepared@[j]@);
        }
        result
    }
}

/// The files that the actions of a manifest refer to.
pub open spec fn manifest_action_paths<D>(manifest: Manifest<D>) -> Seq<ActionPathsView> {
    manifest.actions@.map_values(
        |action: Action<D>|
            action_paths(action@, text::optional_text(manifest.property_inspector_path)),
    )
}

/// Whether there is a place in `found` for each file of `manifest`.
pub open spec fn covers<D>(found: ManifestPaths, manifest: Manifest<D>) -> bool {
    &&& found.actions@.len() == manifest.actions@.len()
    &&& forall|i: int|
        0 <= i < manifest.actions@.len() ==> (#[trigger] found.actions@[i]).states@.len()
            == manifest.actions@[i].states@.len()
}

/// A manifest whose files have been looked up, and whose actions are those of
/// its plugin.
pub struct PreparedManifest<D> {
    plugin: String,
    manifest: Manifest<D>,
}

impl<D> PreparedManifest<D> {
    /// The plugin.
    pub closed spec fn plugin(self) -> Seq<char> {
        self.plugin@
    }

    /// The manifest, with all files where they were found.
    pub closed spec fn manifest(self) -> Manifest<D> {
        self.manifest
    }

    /// Each action is one of the plugin.
    #[verifier::type_invariant]
    spec fn well_formed(self) -> bool {
        forall|i: int|
            0 <= i < self.manifest.actions@.len() ==> (
            #[trigger] self.manifest.actions@[i]).plugin@ == self.plugin@
    }

    /// The plugin and its manifest.
    pub fn into_parts(self) -> (parts: (String, Manifest<D>))
        ensures
            parts.0@ == self.plugin(),
            parts.1 == self.manifest(),
            forall|i: int|
                0 <= i < parts.1.actions@.len() ==> (#[trigger] parts.1.actions@[i]).plugin@
                    == parts.0@,
    {
        proof {
            use_type_invariant(&self);
        }
        (self.plugin, self.manifest)
    }
}

impl<D> Manifest<D> {
    /// The files to look up before the plugin can be used.
    pub fn paths(&self) -> (result: ManifestPaths)
        ensures
            text::optional_text(result.category_icon) == text::optional_text(self.category_icon),
            result.actions@.map_values(|paths: ActionPaths| paths@) == manifest_action_paths(*self),
            covers(result, *self),
    {
        let mut actions: Vec<ActionPaths> = Vec::new();
        let mut i: usize = 0;
        while i < self.actions.len()
            invariant
                i <= self.actions.len(),
                actions@.len() == i,
                forall|j: int|
                    0 <= j < i ==> (#[trigger] actions@[j])@ == action_paths(
                        self.actions@[j]@,
                        text::optional_text(self.property_inspector_path),
                    ),
            decreases self.actions.len() - i,
        {
            actions.push(self.actions[i].paths(&self.property_inspector_path));
            i += 1;
        }
        assert forall|j: int| 0 <= j < self.actions@.len() implies (
        #[trigger] actions@[j]).states@.len() == self.actions@[j].states@.len() by {
            assert(actions@[j]@.states.len() == actions@[j].states@.len());
        }
        assert(actions@.map_values(|paths: ActionPaths| paths@) =~= manifest_action_paths(*self));
        ManifestPaths { category_icon: self.category_icon.clone(), actions }
    }

    /// Makes the actions those of `plugin`, with all files where `found` says.
    pub fn prepare(self, plugin: &str, found: ManifestPaths) -> (result: PreparedManifest<D>)
        requires
            covers(found, self),
        ensures
            result.plugin() == plugin@,
            action_views(result.manifest().actions@) == Seq::new(
                self.actions@.len(),
                |i: int| prepared_action(self.actions@[i]@, plugin@, found.actions@[i]@),
            ),
            forall|i: int|
                0 <= i < self.actions@.len() ==> shows_ascii_families(
                    self.actions@[i]@,
                    (#[trigger] result.manifest().actions@[i])@,
                ),
            result.manifest() == (Manifest {
                category_icon: found.category_icon,
                actions: result.manifest().actions,
                ..self
            }),
    {
        let ghost before = self.actions@;
        let mut prepared: Vec<Action<D>> = Vec::new();
        let mut i: usize = 0;
        for action in iter: self.actions
            invariant
                iter.seq() == before,
                i == iter.index(),
                found.actions@.len() == before.len(),
                forall|j: int|
                    0 <= j < before.len() ==> (#[trigger] found.actions@[j]).states@.len()
                        == before[j].states@.len(),
                prepared@.len() == i,
                forall|j: int|
                    0 <= j < i ==> (#[trigger] prepared@[j])@ == prepared_action(
                        before[j]@,
                        plugin@,
                        found.actions@[j]@,
                    ),
                forall|j: int|
                    0 <= j < i ==> shows_ascii_families(before[j]@, (#[trigger] prepared@[j])@),
        {
            prepared.push(action.prepare(plugin, &found.actions[i]));
            assert(i < found.actions.len());
            i += 1;
        }
        assert(action_views(prepared@) =~= Seq::new(
            before.len(),
            |i: int| prepared_action(before[i]@, plugin@, found.actions@[i]@),
        ));
        assert forall|j: int| 0 <= j < prepared@.len() implies (
        #[trigger] prepared@[j]).plugin@ == plugin@ by {
            assert(prepared@[j]@.plugin == plugin@);
        }
        PreparedManifest {
            plugin: plugin.to_owned(),
            manifest: Manifest { category_icon: found.category_icon, actions: prepared, ..self },
        }
    }
}

/// `path` as `at` answers it, where there is one.
pub open spec fn answered(
    path: Option<Seq<char>>,
    at: spec_fn(Seq<char>) -> Seq<char>,
) -> Option<Seq<char>> {
    match path {
        Some(path) => Some(at(path)),
        None => None,
    }
}

/// `paths` with every image found at `image_at` and the property inspector at
/// `document_at`.
pub open spec fn looked_up(
    paths: ActionPathsView,
    image_at: spec_fn(Seq<char>) -> Seq<char>,
    document_at: spec_fn(Seq<char>) -> Seq<char>,
) -> ActionPathsView {
    ActionPathsView {
        icon: image_at(paths.icon),
        property_inspector: answered(paths.property_inspector, document_at),
        encoder_icon: answered(paths.encoder_icon, image_at),
        encoder_background: answered(paths.encoder_background, image_at),
        states: paths.states.map_values(|path: Option<Seq<char>>| answered(path, image_at)),
    }
}

/// Once the files that an action asks for have been looked up, each of its
/// fields holds where its own file was found: an image that was left out stays
/// left out, a state that stands for the icon shows the icon, and the plugin's
/// property inspector serves where the action has none.
pub proof fn law_each_file_is_where_it_was_found<D>(
    action: ActionView<D>,
    plugin: Seq<char>,
    inspector: Option<Seq<char>>,
    image_at: spec_fn(Seq<char>) -> Seq<char>,
    document_at: spec_fn(Seq<char>) -> Seq<char>,
)
    ensures
        ({
            let found = looked_up(action_paths(action, inspector), image_at, document_at);
            let prepared = prepared_action(action, plugin, found);
            &&& prepared.uuid == action.uuid
            &&& prepared.plugin == plugin
            &&& prepared.details == action.details
            &&& prepared.icon == image_at(action.icon)
            &&& prepared.property_inspector == if action.property_inspector.len() > 0 {
                document_at(action.property_inspector)
            } else if inspector is Some {
                document_at(inspector->0)
            } else {
                action.property_inspector
            }
            &&& prepared.encoder is Some <==> action.encoder is Some
            &&& action.encoder is Some ==> prepared.encoder->0.icon == if
                action.encoder->0.icon.len() == 0 {
                action.encoder->0.icon
            } else {
                image_at(action.encoder->0.icon)
            }
            &&& action.encoder is Some ==> prepared.encoder->0.background == if
                action.encoder->0.background.len() == 0 {
                action.encoder->0.background
            } else {
                image_at(action.encoder->0.background)
            }
            &&& prepared.states.len() == action.states.len()
            &&& forall|i: int|
                0 <= i < action.states.len() ==> (#[trigger] prepared.states[i]).image == if
                    action.states[i].image == "actionDefaultImage"@ {
                    prepared.icon
                } else {
                    image_at(action.states[i].image)
                }
        }),
{
}

/// The parts of a manifest show each of their texts in its own place.
pub proof fn law_parts_of_a_manifest_are_shown<D>(
    encoder: Encoder,
    state: ActionState,
    action: Action<D>,
    actions: Seq<Action<D>>,
)
    ensures
        encoder@.icon == encoder.icon@,
        encoder@.background == encoder.background@,
        state@.image == state.image@,
        state@.family == state.family@,
        action@.uuid == action.uuid@,
        action@.plugin == action.plugin@,
        action@.icon == action.icon@,
        action@.property_inspector == action.property_inspector@,
        action@.encoder is Some <==> action.encoder is Some,
        action.encoder is Some ==> action@.encoder->0 == action.encoder->0@,
        action@.states.len() == action.states@.len(),
        forall|i: int|
            0 <= i < action.states@.len() ==> #[trigger] action@.states[i] == action.states@[i]@,
        action@.details == action.details,
        action_views(actions).len() == actions.len(),
        forall|i: int|
            0 <= i < actions.len() ==> #[trigger] action_views(actions)[i] == actions[i]@,
{
}

/// The paths of an action show each path in its own place.
pub proof fn law_paths_are_shown(paths: ActionPaths)
    ensures
        paths@.icon == paths.icon@,
        paths@.property_inspector is Some <==> paths.property_inspector is Some,
        paths.property_inspector is Some ==> paths@.property_inspector->0
            == paths.property_inspector->0@,
        paths@.encoder_icon is Some <==> paths.encoder_icon is Some,
        paths.encoder_icon is Some ==> paths@.encoder_icon->0 == paths.encoder_icon->0@,
        paths@.encoder_background is Some <==> paths.encoder_background is Some,
        paths.encoder_background is Some ==> paths@.encoder_background->0
            == paths.encoder_background->0@,
        paths@.states.len() == paths.states@.len(),
        forall|i: int| #![trigger paths@.states[i]]
            0 <= i < paths.states@.len() ==> {
                &&& paths@.states[i] is Some <==> paths.states@[i] is Some
                &&& paths.states@[i] is Some ==> paths@.states[i]->0 == paths.states@[i]->0@
            },
{
}

/// The files that an action asks for are its icon; its property inspector, or the
/// plugin's where it has none; the images of its touch strip that are not empty;
/// and the image of each state that does not stand for the icon.
pub proof fn law_an_action_asks_for_its_own_files<D>(
    action: ActionView<D>,
    inspector: Option<Seq<char>>,
)
    ensures
        ({
            let paths = action_paths(action, inspector);
            &&& paths.icon == action.icon
            &&& action.property_inspector.len() > 0 ==> paths.property_inspector == Some(
                action.property_inspector,
            )
            &&& action.property_inspector.len() == 0 ==> paths.property_inspector == inspector
            &&& action.encoder is None ==> paths.encoder_icon is None
                && paths.encoder_background is None
            &&& action.encoder matches Some(encoder) ==> {
                &&& paths.encoder_icon is Some <==> encoder.icon.len() > 0
                &&& encoder.icon.len() > 0 ==> paths.encoder_icon->0 == encoder.icon
                &&& paths.encoder_background is Some <==> encoder.background.len() > 0
                &&& encoder.background.len() > 0 ==> paths.encoder_background->0
                    == encoder.background
            }
            &&& paths.states.len() == action.states.len()
            &&& forall|i: int| #![trigger paths.states[i]]
                0 <= i < action.states.len() ==> {
                    &&& paths.states[i] is None <==> action.states[i].image
                        == "actionDefaultImage"@
                    &&& paths.states[i] is Some ==> paths.states[i]->0 == action.states[i].image
                }
        }),
{
}

/// The states of an action keep their number and order, and each shows the font
/// that is shown for its own family.
pub proof fn law_each_state_shows_its_own_family<D>(
    action: ActionView<D>,
    plugin: Seq<char>,
    found: ActionPathsView,
    i: int,
)
    requires
        0 <= i < action.states.len(),
    ensures
        prepared_action(action, plugin, found).states.len() == action.states.len(),
        prepared_action(action, plugin, found).states[i].family == fonts::shown_family(
            action.states[i].family,
        ),
{
}

/// Each action of a manifest asks for its files, with the plugin's property
/// inspector to fall back on.
pub proof fn law_all_actions_ask_for_their_files<D>(manifest: Manifest<D>, i: int)
    requires
        0 <= i < manifest.actions@.len(),
    ensures
        manifest_action_paths(manifest).len() == manifest.actions@.len(),
        manifest.property_inspector_path is Some ==> manifest_action_paths(manifest)[i]
            == action_paths(
            manifest.actions@[i]@,
            Some(manifest.property_inspector_path->0@),
        ),
        manifest.property_inspector_path is None ==> manifest_action_paths(manifest)[i]
            == action_paths(manifest.actions@[i]@, None),
{
}

/// What was shown of fonts with ASCII names holds of each state: see
/// [`shows_ascii_families`].
pub proof fn law_ascii_families_are_shown<D>(
    action: ActionView<D>,
    prepared: ActionView<D>,
    i: int,
)
    requires
        shows_ascii_families(action, prepared),
        0 <= i < action.states.len(),
        vstd::utf8::is_ascii_chars(action.states[i].family),
    ensures
        prepared.states[i].family == fonts::ascii_shown_family(action.states[i].family),
{
}

} // verus!
