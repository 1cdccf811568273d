use plugin_host::deactivation::{Deactivation, DeactivationReport, DeactivationStep};
use plugin_host::devices::{claim_namespace, devices_in_namespace, release_namespace};
use plugin_host::error::PluginError;
use plugin_host::instances::{
    deactivate_plugin, deactivate_plugins, record_child, record_webview, webviews,
    PluginChildType, PluginInstance, Shutdown,
};
use plugin_host::registry::Registry;

fn texts(texts: &[&str]) -> Vec<String> {
    texts.iter().map(|text| text.to_string()).collect()
}

#[test]
fn processes_are_recorded_by_their_kind() {
    let mut instances: Registry<PluginInstance<u32>> = Registry::new();
    assert_eq!(record_child(&mut instances, "w".to_owned(), PluginChildType::Wine, 1), None);
    assert_eq!(record_child(&mut instances, "n".to_owned(), PluginChildType::Native, 2), None);
    assert_eq!(record_child(&mut instances, "j".to_owned(), PluginChildType::Node, 3), None);
    assert_eq!(record_webview(&mut instances, "v".to_owned()), None);
    assert_eq!(instances.get("w"), Some(&PluginInstance::Wine(1)));
    assert_eq!(instances.get("n"), Some(&PluginInstance::Native(2)));
    assert_eq!(instances.get("j"), Some(&PluginInstance::Node(3)));
    assert_eq!(instances.get("v"), Some(&PluginInstance::Webview));
    assert_eq!(
        record_webview(&mut instances, "j".to_owned()),
        Some(PluginInstance::Node(3))
    );
}

#[test]
fn processes_are_killed_and_windows_closed() {
    let mut instances: Registry<PluginInstance<u32>> = Registry::new();
    record_child(&mut instances, "com.a".to_owned(), PluginChildType::Native, 5);
    record_webview(&mut instances, "com.example.page".to_owned());
    assert_eq!(deactivate_plugin(&mut instances, "com.a"), Ok(Shutdown::Kill(5)));
    assert_eq!(
        deactivate_plugin(&mut instances, "com.example.page"),
        Ok(Shutdown::CloseWindow("com_example_page".to_owned()))
    );
}

#[test]
fn a_plugin_is_deactivated_once() {
    let mut instances: Registry<PluginInstance<u32>> = Registry::new();
    record_child(&mut instances, "a".to_owned(), PluginChildType::Node, 1);
    record_child(&mut instances, "b".to_owned(), PluginChildType::Node, 2);
    assert_eq!(deactivate_plugin(&mut instances, "a"), Ok(Shutdown::Kill(1)));
    let error = deactivate_plugin(&mut instances, "a").unwrap_err();
    assert_eq!(error, PluginError::NoInstance("a".to_owned()));
    assert_eq!(error.message(), "instance of plugin a not found");
    assert_eq!(instances.get("b"), Some(&PluginInstance::Node(2)));
}

#[test]
fn deactivating_all_leaves_none() {
    let mut instances: Registry<PluginInstance<u32>> = Registry::new();
    for (i, plugin) in ["a", "b", "c"].iter().enumerate() {
        record_child(&mut instances, plugin.to_string(), PluginChildType::Wine, i as u32);
    }
    let plugins = deactivate_plugins(&instances);
    assert_eq!(plugins.len(), 3);
    for plugin in &plugins {
        assert!(deactivate_plugin(&mut instances, plugin).is_ok());
    }
    assert!(instances.keys().is_empty());
}

#[test]
fn windows_are_told_from_processes() {
    let mut instances: Registry<PluginInstance<u32>> = Registry::new();
    record_webview(&mut instances, "v1".to_owned());
    record_child(&mut instances, "n".to_owned(), PluginChildType::Native, 1);
    record_webview(&mut instances, "v2".to_owned());
    let mut found = webviews(&instances);
    found.sort();
    assert_eq!(found, texts(&["v1", "v2"]));
}

#[test]
fn namespaces_are_claimed_and_released() {
    let mut namespaces: Registry<String> = Registry::new();
    assert_eq!(claim_namespace(&mut namespaces, "n1".to_owned(), "one"), None);
    assert_eq!(claim_namespace(&mut namespaces, "n2".to_owned(), "two"), None);
    assert_eq!(release_namespace(&mut namespaces, "two"), Some("n2".to_owned()));
    assert_eq!(release_namespace(&mut namespaces, "two"), None);
    assert_eq!(namespaces.get("n1"), Some(&"one".to_owned()));
    assert_eq!(
        claim_namespace(&mut namespaces, "n1".to_owned(), "three"),
        Some("one".to_owned())
    );
    assert_eq!(release_namespace(&mut namespaces, "one"), None);
}

#[test]
fn one_namespace_is_released_at_a_time() {
    let mut namespaces: Registry<String> = Registry::new();
    claim_namespace(&mut namespaces, "n1".to_owned(), "p");
    claim_namespace(&mut namespaces, "n2".to_owned(), "p");
    let mut released = vec![
        release_namespace(&mut namespaces, "p").unwrap(),
        release_namespace(&mut namespaces, "p").unwrap(),
    ];
    released.sort();
    assert_eq!(released, texts(&["n1", "n2"]));
    assert_eq!(release_namespace(&mut namespaces, "p"), None);
}

#[test]
fn devices_are_found_by_two_bytes() {
    let devices = texts(&["sd-1", "op-2", "sd-3", "sd", "sdx", "\u{e9}-1"]);
    assert_eq!(devices_in_namespace(&devices, "sd"), texts(&["sd-1", "sd-3", "sd", "sdx"]));
    assert_eq!(devices_in_namespace(&devices, "\u{e9}"), texts(&["\u{e9}-1"]));
    assert!(devices_in_namespace(&devices, "s").is_empty());
    assert!(devices_in_namespace(&devices, "sd-").is_empty());
    assert!(devices_in_namespace(&devices, "").is_empty());
}

#[test]
fn devices_go_before_the_instance() {
    let mut namespaces: Registry<String> = Registry::new();
    claim_namespace(&mut namespaces, "sd".to_owned(), "p");
    let (deactivation, step) = Deactivation::begin(&mut namespaces, "p");
    assert!(!namespaces.contains("sd"));
    assert_eq!(step, DeactivationStep::ListDevices);
    let listed = DeactivationReport::Devices(texts(&["sd-1", "op-2", "sd-3"]));
    let (deactivation, step) = deactivation.advance(listed);
    assert_eq!(step, DeactivationStep::Deregister("sd-1".to_owned()));
    let (deactivation, step) = deactivation.advance(DeactivationReport::Done);
    assert_eq!(step, DeactivationStep::Deregister("sd-3".to_owned()));
    let (deactivation, step) = deactivation.advance(DeactivationReport::Done);
    assert_eq!(step, DeactivationStep::Refresh);
    let (deactivation, step) = deactivation.advance(DeactivationReport::Done);
    assert_eq!(step, DeactivationStep::StopMonitor);
    let (deactivation, step) = deactivation.advance(DeactivationReport::Done);
    assert_eq!(step, DeactivationStep::TakeInstance);
    let (_, step) = deactivation.advance(DeactivationReport::Done);
    assert_eq!(step, DeactivationStep::Abort);
}

#[test]
fn a_plugin_without_namespace_has_no_devices() {
    let mut namespaces: Registry<String> = Registry::new();
    claim_namespace(&mut namespaces, "sd".to_owned(), "other");
    let (deactivation, step) = Deactivation::begin(&mut namespaces, "p");
    assert!(namespaces.contains("sd"));
    assert_eq!(step, DeactivationStep::StopMonitor);
    let (_, step) = deactivation.advance(DeactivationReport::Done);
    assert_eq!(step, DeactivationStep::TakeInstance);
}

#[test]
fn a_namespace_without_devices_is_refreshed_too() {
    let mut namespaces: Registry<String> = Registry::new();
    claim_namespace(&mut namespaces, "sd".to_owned(), "p");
    let (deactivation, _) = Deactivation::begin(&mut namespaces, "p");
    let (_, step) = deactivation.advance(DeactivationReport::Devices(texts(&["op-1"])));
    assert_eq!(step, DeactivationStep::Refresh);
}

#[test]
fn a_failure_keeps_the_instance() {
    let mut namespaces: Registry<String> = Registry::new();
    claim_namespace(&mut namespaces, "sd".to_owned(), "p");
    let (deactivation, _) = Deactivation::begin(&mut namespaces, "p");
    let (deactivation, _) =
        deactivation.advance(DeactivationReport::Devices(texts(&["sd-1", "sd-2"])));
    let (deactivation, step) = deactivation.advance(DeactivationReport::Failed);
    assert_eq!(step, DeactivationStep::Abort);
    let (_, step) = deactivation.advance(DeactivationReport::Done);
    assert_eq!(step, DeactivationStep::Abort);
}

#[test]
fn the_instance_goes_whatever_is_shown() {
    let mut namespaces: Registry<String> = Registry::new();
    claim_namespace(&mut namespaces, "sd".to_owned(), "p");
    let (deactivation, _) = Deactivation::begin(&mut namespaces, "p");
    let (deactivation, step) = deactivation.advance(DeactivationReport::Devices(vec![]));
    assert_eq!(step, DeactivationStep::Refresh);
    let (deactivation, step) = deactivation.advance(DeactivationReport::Failed);
    assert_eq!(step, DeactivationStep::StopMonitor);
    let (_, step) = deactivation.advance(DeactivationReport::Failed);
    assert_eq!(step, DeactivationStep::TakeInstance);
}
