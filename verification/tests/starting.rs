use plugin_host::categories::Category;
use plugin_host::code::{choose_code, classify, Code, Launch};
use plugin_host::error::PluginError;
use plugin_host::instances::PluginChildType;
use plugin_host::launch::{
    check_node, check_wine, log_file_name, plan_window, query_version, registration_arguments,
    start_command, wine_prefix, write_script, Command, Program, WinePrefix, Window,
};
use plugin_host::manifest::{Action, CodePaths, Manifest, OperatingSystem, PreparedManifest};
use plugin_host::platform::Platform;
use plugin_host::registry::Registry;
use plugin_host::startup::{initialise_plugin, Report, Startup, Step};

const LINUX_TARGET: &str = "x86_64-unknown-linux-gnu";

fn systems(platforms: &[&str]) -> Vec<OperatingSystem> {
    platforms
        .iter()
        .map(|platform| OperatingSystem { platform: platform.to_string() })
        .collect()
}

fn paths(any: Option<&str>, windows: Option<&str>, linux: Option<&str>) -> CodePaths {
    CodePaths {
        any: any.map(str::to_owned),
        windows: windows.map(str::to_owned),
        mac: None,
        linux: linux.map(str::to_owned),
        by_target: None,
    }
}

fn on_linux(os: &[&str], code: &CodePaths) -> Result<Code, PluginError> {
    choose_code(&systems(os), code, Platform::Linux, LINUX_TARGET)
}

fn code(path: &str, wine: bool) -> Code {
    Code { path: path.to_owned(), wine }
}

#[test]
fn a_listed_system_runs_its_own_code() {
    let both = paths(Some("any"), Some("win.exe"), Some("lin"));
    assert_eq!(on_linux(&["linux"], &both), Ok(code("lin", false)));
    assert_eq!(on_linux(&["windows", "linux"], &both), Ok(code("lin", false)));
    assert_eq!(on_linux(&["linux", "windows"], &both), Ok(code("lin", false)));
    assert_eq!(on_linux(&["linux"], &paths(Some("any"), None, None)), Ok(code("any", false)));
}

#[test]
fn code_for_a_target_comes_first() {
    let mut both = paths(Some("any"), None, Some("lin"));
    let mut targets: Registry<String> = Registry::new();
    targets.insert("aarch64-unknown-linux-gnu".to_owned(), "arm".to_owned());
    both.by_target = Some(targets);
    assert_eq!(on_linux(&["linux"], &both), Ok(code("lin", false)));
    both.by_target.as_mut().unwrap().insert(LINUX_TARGET.to_owned(), "intel".to_owned());
    assert_eq!(on_linux(&["linux"], &both), Ok(code("intel", false)));
    assert_eq!(on_linux(&["windows"], &both), Ok(code("any", true)));
}

#[test]
fn windows_plugins_run_under_wine() {
    assert_eq!(
        on_linux(&["windows"], &paths(None, Some("win.exe"), None)),
        Ok(code("win.exe", true))
    );
    assert_eq!(
        on_linux(&["mac", "windows"], &paths(Some("any.exe"), Some("win.exe"), Some("lin"))),
        Ok(code("any.exe", true))
    );
}

#[test]
fn some_plugins_are_unsupported() {
    let unsupported = Err(PluginError::UnsupportedPlatform(Platform::Linux));
    let all = paths(Some("any"), Some("win.exe"), Some("lin"));
    assert_eq!(on_linux(&[], &all), unsupported);
    assert_eq!(on_linux(&["mac"], &all), unsupported);
    assert_eq!(on_linux(&["linux"], &paths(None, Some("win.exe"), None)), unsupported);
    assert_eq!(on_linux(&["windows"], &paths(None, None, Some("lin"))), unsupported);
    assert_eq!(
        on_linux(&["linux", "windows"], &paths(None, Some("win.exe"), None)),
        unsupported
    );
    assert_eq!(
        PluginError::UnsupportedPlatform(Platform::Linux).message(),
        "unsupported on platform linux"
    );
}

#[test]
fn windows_and_mac_choose_their_own_code() {
    let mut all = paths(Some("any"), Some("win.exe"), Some("lin"));
    all.mac = Some("mac.app".to_owned());
    let os = systems(&["windows", "mac"]);
    assert_eq!(
        choose_code(&os, &all, Platform::Windows, "x86_64-pc-windows-msvc"),
        Ok(code("win.exe", false))
    );
    assert_eq!(
        choose_code(&os, &all, Platform::Mac, "aarch64-apple-darwin"),
        Ok(code("mac.app", false))
    );
    assert_eq!(
        choose_code(&systems(&["mac"]), &all, Platform::Windows, "x86_64-pc-windows-msvc"),
        Err(PluginError::UnsupportedPlatform(Platform::Windows))
    );
}

#[test]
fn the_extension_decides_how_code_runs() {
    for (path, launch) in [
        ("index.html", Launch::Webview),
        ("INDEX.HTM", Launch::Webview),
        ("page.xHTML", Launch::Webview),
        ("bin/plugin.js", Launch::Node),
        ("plugin.MJS", Launch::Node),
        ("plugin.cjs", Launch::Node),
        ("plugin.exe", Launch::Wine),
        ("html", Launch::Wine),
        ("plugin.json", Launch::Wine),
    ] {
        assert_eq!(code(path, true).launch(), launch);
        let native = if launch == Launch::Wine { Launch::Native } else { launch };
        assert_eq!(code(path, false).launch(), native);
    }
    assert_eq!(classify("PAGE.HTML", false), Launch::Native);
}

#[test]
fn processes_are_told_how_to_register() {
    assert_eq!(
        registration_arguments(57116, "com.example"),
        vec![
            "-port",
            "57116",
            "-pluginUUID",
            "com.example",
            "-registerEvent",
            "registerPlugin",
            "-info",
        ]
    );
}

fn command(program: Program, arguments: &[&str]) -> Command {
    Command { program, arguments: arguments.iter().map(|text| text.to_string()).collect() }
}

fn system(name: &str) -> Program {
    Program::System(name.to_owned())
}

#[test]
fn versions_are_asked_for() {
    assert_eq!(
        query_version(PluginChildType::Node, false),
        Some(command(system("node"), &["--version"]))
    );
    assert_eq!(
        query_version(PluginChildType::Wine, true),
        Some(command(system("flatpak-spawn"), &["--host", "wine", "--version"]))
    );
    assert_eq!(query_version(PluginChildType::Native, true), None);
}

const REGISTRATION: [&str; 7] =
    ["-port", "1", "-pluginUUID", "p", "-registerEvent", "registerPlugin", "-info"];

#[test]
fn commands_start_plugins() {
    let mut arguments = vec!["main.js"];
    arguments.extend(REGISTRATION);
    assert_eq!(
        start_command(PluginChildType::Node, "main.js", "p", 1, false),
        command(system("node"), &arguments)
    );
    let mut arguments = vec!["--host", "wine", "p.exe"];
    arguments.extend(REGISTRATION);
    assert_eq!(
        start_command(PluginChildType::Wine, "p.exe", "p", 1, true),
        command(system("flatpak-spawn"), &arguments)
    );
    let native = start_command(PluginChildType::Native, "bin/p", "p", 1, true);
    assert_eq!(native, command(Program::Bundled("bin/p".to_owned()), &REGISTRATION));
    let complete = native.with_argument("{}".to_owned());
    assert_eq!(complete.arguments.len(), 8);
    assert_eq!(complete.arguments[7], "{}");
}

#[test]
fn wine_directories_are_kept_or_removed() {
    assert_eq!(wine_prefix(PluginChildType::Wine, true), WinePrefix::Separate);
    assert_eq!(wine_prefix(PluginChildType::Wine, false), WinePrefix::Shared);
    assert_eq!(wine_prefix(PluginChildType::Node, true), WinePrefix::Unused);
    assert_eq!(wine_prefix(PluginChildType::Native, false), WinePrefix::Unused);
}

#[test]
fn windows_show_pages_of_the_file_server() {
    assert_eq!(
        plan_window("com.example.page", "Page", "/plugins/page/index.html", 57116),
        Window {
            label: "com_example_page".to_owned(),
            url: "http://localhost:57118//plugins/page/index.html".to_owned(),
            title: "Page".to_owned(),
        }
    );
}

#[test]
fn pages_connect_by_script() {
    let expected = r#"const opendeckInit = () => {
				try {
					if (document.readyState !== "complete") throw new Error("not ready");
					if (typeof connectOpenActionSocket === "function") connectOpenActionSocket(57116, "com.p", "registerPlugin", `{"a":1}`);
					else connectElgatoStreamDeckSocket(57116, "com.p", "registerPlugin", `{"a":1}`);
				} catch (e) {
					setTimeout(opendeckInit, 10);
				}
			};
			opendeckInit();
			"#;
    assert_eq!(write_script(57116, "com.p", "{\"a\":1}"), expected);
}

#[test]
fn logs_are_named_after_plugins() {
    assert_eq!(log_file_name("com.p"), "com.p.log");
}

fn printed(text: &str) -> Option<Vec<u8>> {
    Some(text.as_bytes().to_vec())
}

#[test]
fn node_must_be_new_enough() {
    for accepted in ["v20.0.0", "v20.0.0\n", "  v22.11.0\r\n", "v20.0.10", "v9.0.0", "v20.0.0-rc"] {
        assert_eq!(check_node(printed(accepted)), Ok(()));
    }
    for refused in ["v18.20.4\n", "v19.9.9", "", "20.0.0", "v20.0", "v100.0.0"] {
        assert_eq!(check_node(printed(refused)), Err(PluginError::NodeRequired));
    }
    assert_eq!(check_node(None), Err(PluginError::NodeRequired));
    assert_eq!(
        PluginError::NodeRequired.message(),
        "Node.js version 20.0.0 or higher is required"
    );
}

#[test]
fn wine_must_be_there() {
    assert_eq!(check_wine(Some(true)), Ok(()));
    assert_eq!(check_wine(Some(false)), Err(PluginError::WineRequired));
    assert_eq!(check_wine(None), Err(PluginError::WineRequired));
    assert_eq!(
        PluginError::WineRequired.message(),
        "failed to detect an installation of Wine"
    );
}

fn manifest(os: &[&str], code_path: &str) -> Manifest<()> {
    Manifest {
        name: "Counter".to_owned(),
        version: "1.2.3".to_owned(),
        category: "Tools".to_owned(),
        category_icon: None,
        actions: vec![Action {
            uuid: "count".to_owned(),
            plugin: String::new(),
            icon: String::new(),
            property_inspector: String::new(),
            encoder: None,
            states: vec![],
            details: (),
        }],
        property_inspector_path: None,
        device_namespace: Some("ct".to_owned()),
        os: systems(os),
        code: paths(Some(code_path), None, None),
        applications_to_monitor: None,
    }
}

fn prepare(manifest: Manifest<()>) -> PreparedManifest<()> {
    let found = manifest.paths();
    manifest.prepare("com.p", found)
}

fn begin(manifest: Manifest<()>, platform: Platform, flatpak: bool) -> Startup {
    let mut categories: Registry<Category<()>> = Registry::new();
    let mut namespaces: Registry<String> = Registry::new();
    initialise_plugin(
        &mut categories,
        &mut namespaces,
        prepare(manifest),
        platform,
        LINUX_TARGET,
        57116,
        flatpak,
    )
    .unwrap()
}

#[test]
fn unsupported_plugins_still_offer_their_actions() {
    let mut categories: Registry<Category<()>> = Registry::new();
    let mut namespaces: Registry<String> = Registry::new();
    let result = initialise_plugin(
        &mut categories,
        &mut namespaces,
        prepare(manifest(&["mac"], "run")),
        Platform::Linux,
        LINUX_TARGET,
        57116,
        false,
    );
    assert_eq!(result, Err(PluginError::UnsupportedPlatform(Platform::Linux)));
    assert_eq!(categories.get("Tools").unwrap().actions[0].uuid, "count");
    assert_eq!(categories.get("Tools").unwrap().actions[0].plugin, "com.p");
    assert_eq!(namespaces.get("ct"), Some(&"com.p".to_owned()));
}

#[test]
fn pages_start_in_windows() {
    let mut startup = begin(manifest(&["linux"], "Index.HTML"), Platform::Linux, false);
    assert_eq!(startup.advance(Report::Start), Step::FindPage("Index.HTML".to_owned()));
    assert_eq!(
        startup.advance(Report::Text("/d/Index.HTML".to_owned())),
        Step::OpenWindow(Window {
            label: "com_p".to_owned(),
            url: "http://localhost:57118//d/Index.HTML".to_owned(),
            title: "Counter".to_owned(),
        })
    );
    assert_eq!(startup.advance(Report::Done), Step::LookForMarker);
    assert_eq!(startup.advance(Report::Marker(true)), Step::ShowWindow);
    assert_eq!(
        startup.advance(Report::Done),
        Step::Describe { version: "1.2.3".to_owned(), wine: false }
    );
    assert_eq!(startup.advance(Report::Done), Step::EncodeDescription);
    assert_eq!(
        startup.advance(Report::Text("{}".to_owned())),
        Step::RunScript(write_script(57116, "com.p", "{}"))
    );
    assert_eq!(startup.advance(Report::Done), Step::RecordWindow);
    assert_eq!(startup.advance(Report::Done), Step::Succeed);
    assert_eq!(startup.advance(Report::Done), Step::Abort);
}

#[test]
fn windows_are_shown_only_for_debugging() {
    let mut startup = begin(manifest(&["linux"], "index.html"), Platform::Linux, false);
    startup.advance(Report::Start);
    startup.advance(Report::Text("page".to_owned()));
    startup.advance(Report::Done);
    assert_eq!(
        startup.advance(Report::Marker(false)),
        Step::Describe { version: "1.2.3".to_owned(), wine: false }
    );
}

#[test]
fn scripts_start_under_node() {
    let mut startup = begin(manifest(&["linux"], "main.js"), Platform::Linux, true);
    assert_eq!(
        startup.advance(Report::Start),
        Step::QueryVersion(
            PluginChildType::Node,
            query_version(PluginChildType::Node, true).unwrap()
        )
    );
    assert_eq!(
        startup.advance(Report::Printed(printed("v20.1.0\n"))),
        Step::Describe { version: "1.2.3".to_owned(), wine: true }
    );
    assert_eq!(startup.advance(Report::Done), Step::OpenLog("com.p.log".to_owned()));
    assert_eq!(
        startup.advance(Report::Done),
        Step::Queue(
            PluginChildType::Node,
            start_command(PluginChildType::Node, "main.js", "com.p", 57116, true)
        )
    );
    assert_eq!(startup.advance(Report::Done), Step::Succeed);
}

#[test]
fn old_versions_of_node_stop_a_startup() {
    let mut startup = begin(manifest(&["linux"], "main.js"), Platform::Linux, false);
    startup.advance(Report::Start);
    assert_eq!(
        startup.advance(Report::Printed(printed("v18.0.0"))),
        Step::Fail(PluginError::NodeRequired)
    );
    assert_eq!(startup.advance(Report::Done), Step::Abort);
    let mut startup = begin(manifest(&["linux"], "main.js"), Platform::Linux, false);
    startup.advance(Report::Start);
    assert_eq!(startup.advance(Report::Printed(None)), Step::Fail(PluginError::NodeRequired));
    let mut startup = begin(manifest(&["linux"], "main.js"), Platform::Linux, false);
    startup.advance(Report::Start);
    assert_eq!(startup.advance(Report::Exited(Some(true))), Step::Abort);
}

#[test]
fn windows_programs_start_under_wine() {
    let mut startup = begin(manifest(&["windows"], "p.exe"), Platform::Linux, false);
    assert_eq!(
        startup.advance(Report::Start),
        Step::QueryVersion(
            PluginChildType::Wine,
            query_version(PluginChildType::Wine, false).unwrap()
        )
    );
    assert_eq!(
        startup.advance(Report::Exited(Some(true))),
        Step::Describe { version: "1.2.3".to_owned(), wine: true }
    );
    startup.advance(Report::Done);
    assert_eq!(
        startup.advance(Report::Done),
        Step::Queue(
            PluginChildType::Wine,
            start_command(PluginChildType::Wine, "p.exe", "com.p", 57116, false)
        )
    );
}

#[test]
fn a_missing_wine_stops_a_startup() {
    for exited in [Some(false), None] {
        let mut startup = begin(manifest(&["windows"], "p.exe"), Platform::Linux, false);
        startup.advance(Report::Start);
        assert_eq!(
            startup.advance(Report::Exited(exited)),
            Step::Fail(PluginError::WineRequired)
        );
    }
}

#[test]
fn programs_are_made_executable() {
    let mut startup = begin(manifest(&["linux"], "bin/p"), Platform::Linux, true);
    assert_eq!(
        startup.advance(Report::Start),
        Step::Describe { version: "1.2.3".to_owned(), wine: false }
    );
    assert_eq!(startup.advance(Report::Done), Step::OpenLog("com.p.log".to_owned()));
    assert_eq!(startup.advance(Report::Done), Step::MakeExecutable("bin/p".to_owned()));
    assert_eq!(
        startup.advance(Report::Done),
        Step::Queue(
            PluginChildType::Native,
            start_command(PluginChildType::Native, "bin/p", "com.p", 57116, true)
        )
    );
    assert_eq!(startup.advance(Report::Done), Step::Succeed);
}

#[test]
fn windows_needs_no_executable_bit() {
    let mut startup = begin(manifest(&["windows"], "p.exe"), Platform::Windows, false);
    startup.advance(Report::Start);
    startup.advance(Report::Done);
    assert_eq!(
        startup.advance(Report::Done),
        Step::Queue(
            PluginChildType::Native,
            start_command(PluginChildType::Native, "p.exe", "com.p", 57116, false)
        )
    );
}

#[test]
fn applications_are_watched_on_their_system() {
    let mut watching = manifest(&["linux", "mac"], "bin/p");
    let mut applications: Registry<Vec<String>> = Registry::new();
    applications.insert("linux".to_owned(), vec!["firefox".to_owned(), "gimp".to_owned()]);
    watching.applications_to_monitor = Some(applications);
    let mut startup = begin(watching, Platform::Linux, false);
    startup.advance(Report::Start);
    for _ in 0..3 {
        startup.advance(Report::Done);
    }
    assert_eq!(
        startup.advance(Report::Done),
        Step::Monitor(vec!["firefox".to_owned(), "gimp".to_owned()])
    );
    assert_eq!(startup.advance(Report::Done), Step::Succeed);

    let mut elsewhere = manifest(&["linux", "mac"], "bin/p");
    let mut applications: Registry<Vec<String>> = Registry::new();
    applications.insert("windows".to_owned(), vec!["notepad.exe".to_owned()]);
    elsewhere.applications_to_monitor = Some(applications);
    let mut startup = begin(elsewhere, Platform::Linux, false);
    startup.advance(Report::Start);
    for _ in 0..3 {
        startup.advance(Report::Done);
    }
    assert_eq!(startup.advance(Report::Done), Step::Succeed);
}

#[test]
fn a_failed_step_stops_a_startup() {
    let mut startup = begin(manifest(&["linux"], "bin/p"), Platform::Linux, false);
    startup.advance(Report::Start);
    startup.advance(Report::Done);
    assert_eq!(startup.advance(Report::Failed), Step::Abort);
    assert_eq!(startup.advance(Report::Done), Step::Abort);
}

#[test]
fn a_page_runs_without_its_debugging_window() {
    let describe = || Step::Describe { version: "1.2.3".to_owned(), wine: false };
    let open = || {
        let mut startup = begin(manifest(&["linux"], "index.html"), Platform::Linux, false);
        startup.advance(Report::Start);
        startup.advance(Report::Text("page".to_owned()));
        assert_eq!(startup.advance(Report::Done), Step::LookForMarker);
        startup
    };
    let mut startup = open();
    assert_eq!(startup.advance(Report::Failed), describe());
    let mut startup = open();
    assert_eq!(startup.advance(Report::Marker(true)), Step::ShowWindow);
    assert_eq!(startup.advance(Report::Failed), describe());
    let mut startup = begin(manifest(&["linux"], "index.html"), Platform::Linux, false);
    startup.advance(Report::Start);
    startup.advance(Report::Text("page".to_owned()));
    assert_eq!(startup.advance(Report::Failed), Step::Abort);
}

#[test]
fn a_program_that_cannot_be_asked_is_missing() {
    let mut startup = begin(manifest(&["linux"], "main.js"), Platform::Linux, false);
    startup.advance(Report::Start);
    assert_eq!(startup.advance(Report::Failed), Step::Fail(PluginError::NodeRequired));
    let mut startup = begin(manifest(&["windows"], "p.exe"), Platform::Linux, false);
    startup.advance(Report::Start);
    assert_eq!(startup.advance(Report::Failed), Step::Fail(PluginError::WineRequired));
}

#[test]
fn a_plugin_runs_without_being_monitored() {
    let mut watching = manifest(&["linux"], "bin/p");
    let mut applications: Registry<Vec<String>> = Registry::new();
    applications.insert("linux".to_owned(), vec![]);
    watching.applications_to_monitor = Some(applications);
    let mut startup = begin(watching, Platform::Linux, false);
    startup.advance(Report::Start);
    for _ in 0..3 {
        startup.advance(Report::Done);
    }
    assert_eq!(startup.advance(Report::Done), Step::Monitor(vec![]));
    assert_eq!(startup.advance(Report::Failed), Step::Succeed);
}
