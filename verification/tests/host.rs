use plugin_host::builtin::{is_outdated, Upgrade, UpgradeReport, UpgradeStep};
use plugin_host::connection::{next_step, ConnectionEvent, ConnectionStep};
use plugin_host::entries::{next_entry_step, EntryEvent, EntryStep};
use plugin_host::initialisation::{
    initialise_plugins, Initialisation, InitialisationReport, InitialisationStep,
};
use plugin_host::ports::{judge, listening_address, PortSearch, FIRST_PORT};

#[test]
fn ports_are_tried_upwards() {
    assert_eq!(FIRST_PORT, 57116);
    assert_eq!(judge(57116, true, true), PortSearch::Found(57116));
    assert_eq!(judge(57116, true, false), PortSearch::Try(57117));
    assert_eq!(judge(57116, false, true), PortSearch::Try(57117));
    assert_eq!(judge(57117, false, false), PortSearch::Try(57118));
    assert_eq!(judge(65532, false, false), PortSearch::Try(65533));
    assert_eq!(judge(65533, true, true), PortSearch::Found(65533));
    assert_eq!(judge(65533, true, false), PortSearch::Exhausted);
}

#[test]
fn the_first_free_port_is_found() {
    let taken = [57117u16, 57118];
    let mut search = PortSearch::Try(FIRST_PORT);
    while let PortSearch::Try(port) = search {
        search = judge(port, !taken.contains(&port), !taken.contains(&(port + 2)));
    }
    assert_eq!(search, PortSearch::Found(57119));
}

#[test]
fn the_server_listens_on_all_interfaces() {
    assert_eq!(listening_address(57116), "0.0.0.0:57116");
}

type Report = InitialisationReport<u8, char>;
type Step = InitialisationStep<u8, char>;

fn start(debug: bool, commit: Option<&str>, stored: Option<&str>) -> Initialisation<u8, char> {
    let mut initialisation = initialise_plugins(debug, "2.5.0", commit, stored);
    assert_eq!(initialisation.advance(Report::Start), Step::ListBundled);
    initialisation
}

/// The mark of a build, and whether it counts as an update.
fn mark(debug: bool, commit: Option<&str>, stored: Option<&str>) -> (String, bool) {
    let mut initialisation = start(debug, commit, stored);
    let app_updated = match initialisation.advance(Report::Bundled(vec![7])) {
        Step::Upgrade { bundled: 7, app_updated } => app_updated,
        other => panic!("{:?}", other),
    };
    match initialisation.advance(Report::Done) {
        Step::StoreMark(mark) => (mark, app_updated),
        other => panic!("{:?}", other),
    }
}

#[test]
fn builds_are_marked() {
    assert_eq!(mark(false, Some("abc"), None), ("2.5.0_abc".to_owned(), true));
    assert_eq!(mark(false, Some("abc"), Some("2.5.0_abc")), ("2.5.0_abc".to_owned(), false));
    assert_eq!(mark(false, None, Some("2.5.0_abc")), ("2.5.0_".to_owned(), true));
    assert_eq!(mark(true, Some("abc"), Some("2.5.0_abc")), ("2.5.0_abc".to_owned(), true));
}

fn store() -> Step {
    Step::StoreMark("2.5.0_abc".to_owned())
}

#[test]
fn the_mark_is_stored_after_all_upgrades() {
    let mut initialisation = start(false, Some("abc"), None);
    let upgrade = |bundled: u8| Step::Upgrade { bundled, app_updated: true };
    assert_eq!(initialisation.advance(Report::Bundled(vec![1, 2, 3])), upgrade(1));
    assert_eq!(initialisation.advance(Report::Failed), upgrade(2));
    assert_eq!(initialisation.advance(Report::Done), upgrade(3));
    assert_eq!(initialisation.advance(Report::Failed), store());
    assert_eq!(initialisation.advance(Report::Failed), Step::ListPlugins);
}

#[test]
fn the_mark_is_stored_without_bundled_plugins() {
    let mut initialisation = start(false, Some("abc"), None);
    assert_eq!(initialisation.advance(Report::Bundled(vec![])), store());
    assert_eq!(initialisation.advance(Report::Done), Step::ListPlugins);
}

#[test]
fn nothing_is_replaced_unless_listed() {
    let mut initialisation = start(false, Some("abc"), None);
    assert_eq!(initialisation.advance(Report::Failed), Step::ListPlugins);
    assert_eq!(initialisation.advance(Report::Plugins(vec!['a', 'b'])), Step::StartSpawner);
    assert_eq!(initialisation.advance(Report::Done), Step::Examine('a'));
    assert_eq!(initialisation.advance(Report::Failed), Step::Examine('b'));
    assert_eq!(initialisation.advance(Report::Done), Step::Finish);
    assert_eq!(initialisation.advance(Report::Done), Step::Abort);
}

#[test]
fn an_unlistable_plugins_directory_ends_the_initialisation() {
    let mut initialisation = start(false, Some("abc"), None);
    initialisation.advance(Report::Failed);
    assert_eq!(initialisation.advance(Report::Failed), Step::Abort);
    let mut initialisation = start(false, Some("abc"), None);
    initialisation.advance(Report::Failed);
    initialisation.advance(Report::Plugins(vec![]));
    assert_eq!(initialisation.advance(Report::Done), Step::Finish);
}

fn kind(step: UpgradeStep) -> &'static str {
    match step {
        UpgradeStep::ReadOffered => "read offered",
        UpgradeStep::ReadInstalled => "read installed",
        UpgradeStep::LookForInstalled => "look for installed",
        UpgradeStep::BackUp => "back up",
        UpgradeStep::Copy => "copy",
        UpgradeStep::LookForBackup => "look for backup",
        UpgradeStep::Restore => "restore",
        UpgradeStep::RemoveBackup => "remove backup",
        UpgradeStep::Finish => "finish",
        UpgradeStep::Refuse(_) => "refuse",
        UpgradeStep::Abort => "abort",
    }
}

fn version(text: &str) -> UpgradeReport {
    UpgradeReport::Version(text.to_owned())
}

fn steps(app_updated: bool, reports: Vec<UpgradeReport>) -> Vec<&'static str> {
    let mut upgrade = Upgrade::new(app_updated);
    let mut steps = vec![kind(upgrade.advance(UpgradeReport::Start))];
    for report in reports {
        steps.push(kind(upgrade.advance(report)));
    }
    steps
}

fn after_versions(offered: &str, installed: &str) -> &'static str {
    steps(false, vec![version(offered), version(installed)])[2]
}

#[test]
fn outdated_plugins_are_replaced() {
    assert_eq!(
        steps(
            false,
            vec![
                version("1.2.0"),
                version("1.1.9"),
                UpgradeReport::Present(true),
                UpgradeReport::Done,
                UpgradeReport::Done,
                UpgradeReport::Done,
            ]
        ),
        vec![
            "read offered",
            "read installed",
            "look for installed",
            "back up",
            "copy",
            "remove backup",
            "finish",
        ]
    );
}

#[test]
fn versions_are_compared_as_semantic_versions() {
    for (offered, installed, step) in [
        ("1.10.0", "1.9.0", "look for installed"),
        ("1.9.0", "1.10.0", "finish"),
        ("1.0.0", "1.0.0", "finish"),
        ("1.0.0", "1.0.0-alpha", "look for installed"),
        ("1.0.0-alpha", "1.0.0", "finish"),
        ("1.0.0-alpha.11", "1.0.0-alpha.2", "look for installed"),
        ("2.0.0", "1.99.99", "look for installed"),
        ("1.0.0", "one", "look for installed"),
        ("1.0.0", "1.0", "look for installed"),
        ("1.0.0", "", "look for installed"),
    ] {
        assert_eq!(after_versions(offered, installed), step);
    }
}

#[test]
fn unreadable_plugins_are_replaced() {
    assert_eq!(
        steps(false, vec![version("1.0.0"), UpgradeReport::Failed])[2],
        "look for installed"
    );
    assert!(is_outdated(None));
    assert!(is_outdated(Some(true)));
    assert!(!is_outdated(Some(false)));
}

#[test]
fn an_updated_host_replaces_whatever_is_installed() {
    assert_eq!(
        steps(
            true,
            vec![
                version("1.0.0"),
                UpgradeReport::Present(false),
                UpgradeReport::Done,
                UpgradeReport::Failed,
            ]
        ),
        vec!["read offered", "look for installed", "copy", "remove backup", "finish"]
    );
}

#[test]
fn plugins_without_a_version_are_not_installed() {
    for text in ["", "1.0", "1.0.01", "v1.0.0", "1.0.0-"] {
        assert_eq!(steps(true, vec![version(text)]), vec!["read offered", "refuse"]);
        assert_eq!(steps(false, vec![version(text)]), vec!["read offered", "refuse"]);
    }
    assert_eq!(steps(true, vec![UpgradeReport::Failed]), vec!["read offered", "abort"]);
}

#[test]
fn the_reason_for_a_refusal_is_given() {
    let mut upgrade = Upgrade::new(false);
    upgrade.advance(UpgradeReport::Start);
    match upgrade.advance(version("1.q.r")) {
        UpgradeStep::Refuse(error) => assert_eq!(
            error.to_string(),
            "unexpected character 'q' while parsing minor version number"
        ),
        other => panic!("{}", kind(other)),
    }
}

#[test]
fn a_failed_copy_is_undone() {
    let failed = || {
        vec![
            version("1.0.0"),
            UpgradeReport::Present(true),
            UpgradeReport::Done,
            UpgradeReport::Failed,
        ]
    };
    let mut reports = failed();
    reports.extend(vec![
        UpgradeReport::Present(true),
        UpgradeReport::Done,
        UpgradeReport::Done,
    ]);
    assert_eq!(
        steps(true, reports)[4..],
        ["look for backup", "restore", "remove backup", "finish"]
    );
    let mut reports = failed();
    reports.extend(vec![UpgradeReport::Present(false), UpgradeReport::Failed]);
    assert_eq!(steps(true, reports)[4..], ["look for backup", "remove backup", "finish"]);
    let mut reports = failed();
    reports.extend(vec![UpgradeReport::Present(true), UpgradeReport::Failed]);
    assert_eq!(steps(true, reports)[4..], ["look for backup", "restore", "abort"]);
}

#[test]
fn a_failed_backup_stops_an_upgrade() {
    assert_eq!(
        steps(true, vec![version("1.0.0"), UpgradeReport::Present(true), UpgradeReport::Failed]),
        vec!["read offered", "look for installed", "back up", "abort"]
    );
}

#[test]
fn first_messages_are_routed() {
    assert_eq!(
        next_step(ConnectionEvent::Handshake { completed: true }),
        ConnectionStep::Receive
    );
    assert_eq!(
        next_step(ConnectionEvent::Handshake { completed: false }),
        ConnectionStep::Close
    );
    assert_eq!(
        next_step(ConnectionEvent::Received { registration: true }),
        ConnectionStep::Register
    );
    assert_eq!(
        next_step(ConnectionEvent::Received { registration: false }),
        ConnectionStep::Process
    );
    assert_eq!(next_step(ConnectionEvent::ReceiveFailed), ConnectionStep::Close);
}

#[test]
fn directories_are_plugins() {
    assert_eq!(next_entry_step(EntryEvent::Unreadable), EntryStep::Warn);
    assert_eq!(next_entry_step(EntryEvent::Listed { link: true }), EntryStep::Resolve);
    assert_eq!(next_entry_step(EntryEvent::Listed { link: false }), EntryStep::Inspect);
    assert_eq!(next_entry_step(EntryEvent::Resolved), EntryStep::Inspect);
    assert_eq!(next_entry_step(EntryEvent::Inspected { directory: true }), EntryStep::Initialise);
    assert_eq!(next_entry_step(EntryEvent::Inspected { directory: false }), EntryStep::Skip);
}

#[test]
fn what_cannot_be_looked_for_is_not_there() {
    assert_eq!(
        steps(true, vec![version("1.0.0"), UpgradeReport::Failed, UpgradeReport::Failed]),
        vec!["read offered", "look for installed", "copy", "look for backup"]
    );
    assert_eq!(
        steps(
            true,
            vec![
                version("1.0.0"),
                UpgradeReport::Present(false),
                UpgradeReport::Failed,
                UpgradeReport::Failed,
            ]
        )[3..],
        ["look for backup", "remove backup"]
    );
}

#[test]
fn a_second_run_replaces_nothing() {
    assert!(mark(false, Some("abc"), None).1);
    let (stored, _) = mark(false, Some("abc"), None);
    let (_, app_updated) = mark(false, Some("abc"), Some(&stored));
    for (offered, installed) in [("1.0.0", "1.0.0"), ("1.0.0-rc+b", "1.0.0-rc+b"), ("1.0.0", "2.0.0")] {
        assert_eq!(
            steps(app_updated, vec![version(offered), version(installed)]),
            vec!["read offered", "read installed", "finish"]
        );
    }
}
