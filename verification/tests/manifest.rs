use plugin_host::categories::{offer_actions, Category};
use plugin_host::manifest::{
    Action, ActionState, CodePaths, Encoder, Manifest, ManifestPaths,
};
use plugin_host::registry::Registry;

fn state(image: &str, family: &str) -> ActionState {
    ActionState { image: image.to_owned(), family: family.to_owned() }
}

fn action(uuid: &str, details: u32) -> Action<u32> {
    Action {
        uuid: uuid.to_owned(),
        plugin: String::new(),
        icon: "icons/main".to_owned(),
        property_inspector: String::new(),
        encoder: None,
        states: vec![],
        details,
    }
}

fn manifest(actions: Vec<Action<u32>>, inspector: Option<&str>) -> Manifest<u32> {
    Manifest {
        name: "Counter".to_owned(),
        version: "1.0.0".to_owned(),
        category: "Tools".to_owned(),
        category_icon: Some("icons/category".to_owned()),
        actions,
        property_inspector_path: inspector.map(|path| path.to_owned()),
        device_namespace: None,
        os: vec![],
        code: CodePaths { any: None, windows: None, mac: None, linux: None, by_target: None },
        applications_to_monitor: None,
    }
}

fn found(paths: ManifestPaths) -> ManifestPaths {
    let image = |path: String| format!("/p/{}.png", path);
    let document = |path: String| format!("/p/{}", path);
    let mut paths = paths;
    paths.category_icon = paths.category_icon.map(image);
    for action in &mut paths.actions {
        action.icon = image(std::mem::take(&mut action.icon));
        action.property_inspector = action.property_inspector.take().map(document);
        action.encoder_icon = action.encoder_icon.take().map(image);
        action.encoder_background = action.encoder_background.take().map(image);
        for state in &mut action.states {
            *state = state.take().map(image);
        }
    }
    paths
}

#[test]
fn needed_files_are_listed() {
    let mut first = action("a", 1);
    first.property_inspector = "own.html".to_owned();
    first.encoder =
        Some(Encoder { icon: "icons/encoder".to_owned(), background: String::new() });
    first.states = vec![state("actionDefaultImage", "Arial"), state("icons/on", "Arial")];
    let second = action("b", 2);
    let paths = manifest(vec![first, second], Some("shared.html")).paths();
    assert_eq!(paths.category_icon, Some("icons/category".to_owned()));
    assert_eq!(paths.actions.len(), 2);
    assert_eq!(paths.actions[0].icon, "icons/main");
    assert_eq!(paths.actions[0].property_inspector, Some("own.html".to_owned()));
    assert_eq!(paths.actions[0].encoder_icon, Some("icons/encoder".to_owned()));
    assert_eq!(paths.actions[0].encoder_background, None);
    assert_eq!(paths.actions[0].states, vec![None, Some("icons/on".to_owned())]);
    assert_eq!(paths.actions[1].property_inspector, Some("shared.html".to_owned()));
    assert_eq!(paths.actions[1].encoder_icon, None);
    assert!(paths.actions[1].states.is_empty());
}

#[test]
fn an_action_can_be_without_property_inspector() {
    let paths = manifest(vec![action("a", 1)], None).paths();
    assert_eq!(paths.actions[0].property_inspector, None);
}

#[test]
fn each_file_is_where_it_was_found() {
    let mut first = action("a", 7);
    first.encoder = Some(Encoder { icon: String::new(), background: "icons/back".to_owned() });
    first.states = vec![
        state("actionDefaultImage", " Tahoma "),
        state("icons/on", "Fira Sans"),
        state("actiondefaultimage", "impact"),
    ];
    let before = manifest(vec![first], Some("shared.html"));
    let paths = found(before.paths());
    let (plugin, after) = before.prepare("com.example.counter", paths).into_parts();
    assert_eq!(plugin, "com.example.counter");
    assert_eq!(after.name, "Counter");
    assert_eq!(after.category, "Tools");
    assert_eq!(after.category_icon, Some("/p/icons/category.png".to_owned()));
    let prepared = &after.actions[0];
    assert_eq!(prepared.uuid, "a");
    assert_eq!(prepared.plugin, "com.example.counter");
    assert_eq!(prepared.details, 7);
    assert_eq!(prepared.icon, "/p/icons/main.png");
    assert_eq!(prepared.property_inspector, "/p/shared.html");
    let encoder = prepared.encoder.as_ref().unwrap();
    assert_eq!(encoder.icon, "");
    assert_eq!(encoder.background, "/p/icons/back.png");
    assert_eq!(prepared.states[0].image, "/p/icons/main.png");
    assert_eq!(prepared.states[0].family, "Open Sans");
    assert_eq!(prepared.states[1].image, "/p/icons/on.png");
    assert_eq!(prepared.states[1].family, "Fira Sans");
    assert_eq!(prepared.states[2].image, "/p/actiondefaultimage.png");
    assert_eq!(prepared.states[2].family, "Anton");
}

#[test]
fn a_missing_property_inspector_stays_missing() {
    let before = manifest(vec![action("a", 1)], None);
    let paths = found(before.paths());
    let (_, after) = before.prepare("p", paths).into_parts();
    assert_eq!(after.actions[0].property_inspector, "");
}

fn offered(categories: &Registry<Category<u32>>, name: &str) -> Vec<(String, u32)> {
    categories
        .get(name)
        .unwrap()
        .actions
        .iter()
        .map(|action| (action.uuid.clone(), action.details))
        .collect()
}

fn pairs(expected: &[(&str, u32)]) -> Vec<(String, u32)> {
    expected.iter().map(|(uuid, details)| (uuid.to_string(), *details)).collect()
}

#[test]
fn a_first_offer_makes_a_category() {
    let mut categories: Registry<Category<u32>> = Registry::new();
    offer_actions(
        &mut categories,
        "Tools".to_owned(),
        Some("icon".to_owned()),
        vec![action("a", 1), action("b", 2)],
    );
    assert_eq!(offered(&categories, "Tools"), pairs(&[("a", 1), ("b", 2)]));
    assert_eq!(categories.get("Tools").unwrap().icon, Some("icon".to_owned()));
}

#[test]
fn an_empty_offer_makes_no_category() {
    let mut categories: Registry<Category<u32>> = Registry::new();
    offer_actions(&mut categories, "Tools".to_owned(), None, vec![]);
    assert!(!categories.contains("Tools"));
}

#[test]
fn an_offer_replaces_its_own_actions() {
    let mut categories: Registry<Category<u32>> = Registry::new();
    offer_actions(
        &mut categories,
        "Tools".to_owned(),
        Some("first".to_owned()),
        vec![action("a", 1), action("b", 2), action("c", 3)],
    );
    offer_actions(
        &mut categories,
        "Tools".to_owned(),
        Some("second".to_owned()),
        vec![action("b", 4), action("d", 5)],
    );
    assert_eq!(offered(&categories, "Tools"), pairs(&[("a", 1), ("c", 3), ("b", 4), ("d", 5)]));
    assert_eq!(categories.get("Tools").unwrap().icon, Some("first".to_owned()));
}

#[test]
fn offering_again_changes_nothing() {
    let mut categories: Registry<Category<u32>> = Registry::new();
    offer_actions(&mut categories, "Tools".to_owned(), None, vec![action("x", 9)]);
    for _ in 0..2 {
        offer_actions(
            &mut categories,
            "Tools".to_owned(),
            None,
            vec![action("a", 1), action("b", 2)],
        );
        assert_eq!(offered(&categories, "Tools"), pairs(&[("x", 9), ("a", 1), ("b", 2)]));
    }
}

#[test]
fn duplicates_of_a_first_offer_stay() {
    let mut categories: Registry<Category<u32>> = Registry::new();
    offer_actions(
        &mut categories,
        "Tools".to_owned(),
        None,
        vec![action("a", 1), action("a", 2)],
    );
    assert_eq!(offered(&categories, "Tools"), pairs(&[("a", 1), ("a", 2)]));
    offer_actions(&mut categories, "Tools".to_owned(), None, vec![action("a", 3)]);
    assert_eq!(offered(&categories, "Tools"), pairs(&[("a", 2), ("a", 3)]));
}

#[test]
fn registries_hold_one_value_for_each_key() {
    let mut registry: Registry<u8> = Registry::new();
    assert_eq!(registry.insert("a".to_owned(), 1), None);
    assert_eq!(registry.insert("b".to_owned(), 2), None);
    assert_eq!(registry.insert("a".to_owned(), 3), Some(1));
    assert_eq!(registry.get("a"), Some(&3));
    assert_eq!(registry.get("c"), None);
    let mut keys = registry.keys();
    keys.sort();
    assert_eq!(keys, vec!["a", "b"]);
    assert_eq!(registry.remove("a"), Some(3));
    assert_eq!(registry.remove("a"), None);
    assert!(registry.contains("b"));
}
