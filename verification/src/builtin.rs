//! The plugins that come with the host, and how they are kept up to date.
//!
//! An [`Upgrade`] says what to do next about one of them, and is told how it
//! went, until the plugin is up to date or cannot be brought up to date.

use crate::initialisation;
use crate::version;
use crate::version::PluginVersion;
use vstd::prelude::*;

verus! {

/// Whether an installed plugin is to be replaced. `older` is whether its version
/// is less than that of the one that comes with the host, if it has a version.
pub fn is_outdated(older: Option<bool>) -> (result: bool)
    ensures
        result == (older != Some(false)),
{
    match older {
        Some(older) => older,
        None => true,
    }
}

/// Whether an installed plugin with the version `installed` is to be replaced by
/// one with the version `offered`.
pub open spec fn outdated(installed: Seq<char>, offered: Seq<char>) -> bool {
    !version::is_version(installed) || version::older(installed, offered)
}

/// What is being done about a plugin that comes with the host.
#[derive(Clone, Copy, Debug, PartialEq, Eq, Structural)]
pub enum UpgradeStage {
    Created,
    ReadingOffered,
    ReadingInstalled,
    LookingForInstalled,
    BackingUp,
    Copying,
    LookingForBackup,
    Restoring,
    RemovingBackup,
    Finished,
    Stopped,
}

/// What is to be done next.
pub enum UpgradeStep {
    /// Read the version of the plugin that comes with the host.
    ReadOffered,
    /// Read the version of the installed plugin.
    ReadInstalled,
    /// See whether the plugin is installed.
    LookForInstalled,
    /// Rename the installed plugin, which makes it the backup.
    BackUp,
    /// Copy the plugin that comes with the host to where plugins are installed.
    Copy,
    /// See whether there is a backup.
    LookForBackup,
    /// Rename the backup, which makes it the installed plugin.
    Restore,
    /// Remove the backup, if there is one.
    RemoveBackup,
    /// Nothing is left to be done.
    Finish,
    /// The plugin that comes with the host has no version.
    Refuse(semver::Error),
    /// What was to be done could not be done.
    Abort,
}

/// How the last step went.
#[derive(Debug, PartialEq, Eq)]
pub enum UpgradeReport {
    /// There was no step yet.
    Start,
    Done,
    Failed,
    /// The version that was read.
    Version(String),
    /// Whether what was looked for is there.
    Present(bool),
}

pub enum UpgradeReportView {
    Start,
    Done,
    Failed,
    Version(Seq<char>),
    Present(bool),
}

impl View for UpgradeReport {
    type V = UpgradeReportView;

    open spec fn view(&self) -> UpgradeReportView {
        match self {
            UpgradeReport::Start => UpgradeReportView::Start,
            UpgradeReport::Done => UpgradeReportView::Done,
            UpgradeReport::Failed => UpgradeReportView::Failed,
            UpgradeReport::Version(version) => UpgradeReportView::Version(version@),
            UpgradeReport::Present(present) => UpgradeReportView::Present(*present),
        }
    }
}

/// A plugin that comes with the host and is being brought up to date.
pub struct Upgrade {
    app_updated: bool,
    offered: Option<PluginVersion>,
    stage: UpgradeStage,
}

#[verifier::ext_equal]
pub struct UpgradeView {
    pub app_updated: bool,
    /// The version of the plugin that comes with the host, once it is known.
    pub offered: Option<Seq<char>>,
    pub stage: UpgradeStage,
}

impl View for Upgrade {
    type V = UpgradeView;

    closed spec fn view(&self) -> UpgradeView {
        UpgradeView {
            app_updated: self.app_updated,
            offered: match self.offered {
                Some(version) => Some(version@),
                None => None,
            },
            stage: self.stage,
        }
    }
}

impl UpgradeView {
    /// The stage that `report` leads to. What cannot be looked for is taken not to
    /// be there. A report that the stage does not wait for stops the upgrade.
    pub open spec fn next_stage(self, report: UpgradeReportView) -> UpgradeStage {
        match (self.stage, report) {
            (UpgradeStage::Created, UpgradeReportView::Start) => UpgradeStage::ReadingOffered,
            (UpgradeStage::ReadingOffered, UpgradeReportView::Version(version)) => if
                !version::is_version(version) {
                UpgradeStage::Stopped
            } else if self.app_updated {
                UpgradeStage::LookingForInstalled
            } else {
                UpgradeStage::ReadingInstalled
            },
            (UpgradeStage::ReadingInstalled, UpgradeReportView::Version(version)) => if outdated(
                version,
                self.offered->0,
            ) {
                UpgradeStage::LookingForInstalled
            } else {
                UpgradeStage::Finished
            },
            (UpgradeStage::ReadingInstalled, UpgradeReportView::Failed) =>
                UpgradeStage::LookingForInstalled,
            (UpgradeStage::LookingForInstalled, UpgradeReportView::Present(present)) => if present {
                UpgradeStage::BackingUp
            } else {
                UpgradeStage::Copying
            },
            (UpgradeStage::LookingForInstalled, UpgradeReportView::Failed) => UpgradeStage::Copying,
            (UpgradeStage::BackingUp, UpgradeReportView::Done) => UpgradeStage::Copying,
            (UpgradeStage::Copying, UpgradeReportView::Done) => UpgradeStage::RemovingBackup,
            (UpgradeStage::Copying, UpgradeReportView::Failed) => UpgradeStage::LookingForBackup,
            (UpgradeStage::LookingForBackup, UpgradeReportView::Present(present)) => if present {
                UpgradeStage::Restoring
            } else {
                UpgradeStage::RemovingBackup
            },
            (UpgradeStage::LookingForBackup, UpgradeReportView::Failed) =>
                UpgradeStage::RemovingBackup,
            (UpgradeStage::Restoring, UpgradeReportView::Done) => UpgradeStage::RemovingBackup,
            (UpgradeStage::RemovingBackup, UpgradeReportView::Done) => UpgradeStage::Finished,
            (UpgradeStage::RemovingBackup, UpgradeReportView::Failed) => UpgradeStage::Finished,
            _ => UpgradeStage::Stopped,
        }
    }

    /// The state that `report` leads to.
    pub open spec fn after(self, report: UpgradeReportView) -> UpgradeView {
        UpgradeView {
            app_updated: self.app_updated,
            offered: match (self.stage, report) {
                (UpgradeStage::ReadingOffered, UpgradeReportView::Version(version)) => if
                    version::is_version(version) {
                    Some(version)
                } else {
                    self.offered
                },
                _ => self.offered,
            },
            stage: self.next_stage(report),
        }
    }

    /// Whether `step` is what to do after `report`: what the stage that it leads
    /// to is for.
    pub open spec fn asks_for(self, report: UpgradeReportView, step: UpgradeStep) -> bool {
        match self.next_stage(report) {
            UpgradeStage::Created => false,
            UpgradeStage::ReadingOffered => step is ReadOffered,
            UpgradeStage::ReadingInstalled => step is ReadInstalled,
            UpgradeStage::LookingForInstalled => step is LookForInstalled,
            UpgradeStage::BackingUp => step is BackUp,
            UpgradeStage::Copying => step is Copy,
            UpgradeStage::LookingForBackup => step is LookForBackup,
            UpgradeStage::Restoring => step is Restore,
            UpgradeStage::RemovingBackup => step is RemoveBackup,
            UpgradeStage::Finished => step is Finish,
            UpgradeStage::Stopped => if self.stage == UpgradeStage::ReadingOffered
                && report is Version {
                step is Refuse
            } else {
                step is Abort
            },
        }
    }
}

impl Upgrade {
    /// From when the installed version is read, the offered one is known.
    #[verifier::type_invariant]
    spec fn well_formed(self) -> bool {
        self.stage == UpgradeStage::ReadingInstalled ==> self.offered is Some
    }

    /// Begins to bring a plugin up to date. `app_updated` is whether it is
    /// replaced whatever its version.
    pub fn new(app_updated: bool) -> (upgrade: Upgrade)
        ensures
            upgrade@ == (UpgradeView { app_updated, offered: None, stage: UpgradeStage::Created }),
    {
        Upgrade { app_updated, offered: None, stage: UpgradeStage::Created }
    }

    /// Whether the installed plugin with the version `installed` is to be
    /// replaced.
    fn replaces(&self, installed: &str) -> (result: bool)
        requires
            self.offered is Some,
        ensures
            result == outdated(installed@, self@.offered->0),
            forall|a: (u64, u64, u64), b: (u64, u64, u64)|
                #![trigger version::release(a.0, a.1, a.2), version::release(b.0, b.1, b.2)]
                installed@ == version::release(a.0, a.1, a.2) && self@.offered->0
                    == version::release(b.0, b.1, b.2) ==> result == version::release_less(a, b),
    {
        let older = match (version::parse_version(installed), &self.offered) {
            (Ok(installed), Some(offered)) => Some(installed.precedes(offered)),
            _ => None,
        };
        is_outdated(older)
    }

    /// Reports how the last step went, and says what to do next.
    pub fn advance(&mut self, report: UpgradeReport) -> (step: UpgradeStep)
        ensures
            final(self)@ == old(self)@.after(report@),
            old(self)@.asks_for(report@, step),
            // Three numbers with dots between them are a version.
            forall|major: u64, minor: u64, patch: u64|
                old(self)@.stage == UpgradeStage::ReadingOffered && report@
                    == UpgradeReportView::Version(#[trigger] version::release(major, minor, patch))
                    ==> final(self)@.stage == if old(self)@.app_updated {
                    UpgradeStage::LookingForInstalled
                } else {
                    UpgradeStage::ReadingInstalled
                },
            // Such versions are compared number by number.
            forall|a: (u64, u64, u64), b: (u64, u64, u64)|
                #![trigger version::release(a.0, a.1, a.2), version::release(b.0, b.1, b.2)]
                old(self)@.stage == UpgradeStage::ReadingInstalled && report@
                    == UpgradeReportView::Version(version::release(a.0, a.1, a.2))
                    && old(self)@.offered == Some(version::release(b.0, b.1, b.2))
                    ==> final(self)@.stage == if version::release_less(a, b) {
                    UpgradeStage::LookingForInstalled
                } else {
                    UpgradeStage::Finished
                },
    {
        proof {
            use_type_invariant(&*self);
        }
        let (stage, step) = match (self.stage, report) {
            (UpgradeStage::Created, UpgradeReport::Start) => (
                UpgradeStage::ReadingOffered,
                UpgradeStep::ReadOffered,
            ),
            (UpgradeStage::ReadingOffered, UpgradeReport::Version(version)) => {
                match version::parse_version(version.as_str()) {
                    Ok(version) => {
                        self.offered = Some(version);
                        if self.app_updated {
                            (UpgradeStage::LookingForInstalled, UpgradeStep::LookForInstalled)
                        } else {
                            (UpgradeStage::ReadingInstalled, UpgradeStep::ReadInstalled)
                        }
                    },
                    Err(error) => (UpgradeStage::Stopped, UpgradeStep::Refuse(error)),
                }
            },
            (UpgradeStage::ReadingInstalled, UpgradeReport::Version(version)) => if self.replaces(
                version.as_str(),
            ) {
                (UpgradeStage::LookingForInstalled, UpgradeStep::LookForInstalled)
            } else {
                (UpgradeStage::Finished, UpgradeStep::Finish)
            },
            (UpgradeStage::ReadingInstalled, UpgradeReport::Failed) => (
                UpgradeStage::LookingForInstalled,
                UpgradeStep::LookForInstalled,
            ),
            (UpgradeStage::LookingForInstalled, UpgradeReport::Present(true)) => (
                UpgradeStage::BackingUp,
                UpgradeStep::BackUp,
            ),
            (UpgradeStage::LookingForInstalled, UpgradeReport::Present(false)) => (
                UpgradeStage::Copying,
                UpgradeStep::Copy,
            ),
            (UpgradeStage::LookingForInstalled, UpgradeReport::Failed) => (
                UpgradeStage::Copying,
                UpgradeStep::Copy,
            ),
            (UpgradeStage::BackingUp, UpgradeReport::Done) => (
                UpgradeStage::Copying,
                UpgradeStep::Copy,
            ),
            (UpgradeStage::Copying, UpgradeReport::Done) => (
                UpgradeStage::RemovingBackup,
                UpgradeStep::RemoveBackup,
            ),
            (UpgradeStage::Copying, UpgradeReport::Failed) => (
                UpgradeStage::LookingForBackup,
                UpgradeStep::LookForBackup,
            ),
            (UpgradeStage::LookingForBackup, UpgradeReport::Present(true)) => (
                UpgradeStage::Restoring,
                UpgradeStep::Restore,
            ),
            (UpgradeStage::LookingForBackup, UpgradeReport::Present(false)) => (
                UpgradeStage::RemovingBackup,
                UpgradeStep::RemoveBackup,
            ),
            (UpgradeStage::LookingForBackup, UpgradeReport::Failed) => (
                UpgradeStage::RemovingBackup,
                UpgradeStep::RemoveBackup,
            ),
            (UpgradeStage::Restoring, UpgradeReport::Done) => (
                UpgradeStage::RemovingBackup,
                UpgradeStep::RemoveBackup,
            ),
            (UpgradeStage::RemovingBackup, UpgradeReport::Done) => (
                UpgradeStage::Finished,
                UpgradeStep::Finish,
            ),
            (UpgradeStage::RemovingBackup, UpgradeReport::Failed) => (
                UpgradeStage::Finished,
                UpgradeStep::Finish,
            ),
            _ => (UpgradeStage::Stopped, UpgradeStep::Abort),
        };
        self.stage = stage;
        step
    }
}

impl UpgradeStage {
    /// Whether nothing is left to be done.
    pub open spec fn is_last(self) -> bool {
        self == UpgradeStage::Finished || self == UpgradeStage::Stopped
    }

    /// How many reports it takes to the end of the upgrade, at most.
    pub open spec fn reports_left(self) -> nat {
        match self {
            UpgradeStage::Created => 9,
            UpgradeStage::ReadingOffered => 8,
            UpgradeStage::ReadingInstalled => 7,
            UpgradeStage::LookingForInstalled => 6,
            UpgradeStage::BackingUp => 5,
            UpgradeStage::Copying => 4,
            UpgradeStage::LookingForBackup => 3,
            UpgradeStage::Restoring => 2,
            UpgradeStage::RemovingBackup => 1,
            UpgradeStage::Finished => 0,
            UpgradeStage::Stopped => 0,
        }
    }
}

impl UpgradeView {
    /// The state that several reports lead to.
    pub open spec fn after_all(self, reports: Seq<UpgradeReportView>) -> UpgradeView
        decreases reports.len(),
    {
        if reports.len() == 0 {
            self
        } else {
            self.after_all(reports.drop_last()).after(reports.last())
        }
    }
}

proof fn lemma_reports_left(upgrade: UpgradeView, reports: Seq<UpgradeReportView>)
    ensures
        upgrade.after_all(reports).stage.is_last() || upgrade.after_all(
            reports,
        ).stage.reports_left() + reports.len() <= upgrade.stage.reports_left(),
    decreases reports.len(),
{
    if reports.len() > 0 {
        lemma_reports_left(upgrade, reports.drop_last());
    }
}

/// An upgrade ends after nine reports at the latest, whatever they say.
pub proof fn law_upgrade_ends(upgrade: UpgradeView, reports: Seq<UpgradeReportView>)
    requires
        reports.len() >= 9,
    ensures
        upgrade.after_all(reports).stage.is_last(),
{
    lemma_reports_left(upgrade, reports);
}

/// What is on disk of a plugin: what is installed, and what was backed up. `T`
/// is what a directory holds.
#[verifier::ext_equal]
pub struct Disk<T> {
    pub installed: Option<T>,
    pub backup: Option<T>,
}

/// Whether the step of `stage`, which ended with `report`, can have turned
/// `before` into `after`. `offered` is what comes with the host. Looking for
/// something finds whether it is there; renaming happens or does not happen; a
/// copy that fails can leave anything behind, and so can the removal of a backup.
pub open spec fn step_effect<T>(
    stage: UpgradeStage,
    report: UpgradeReportView,
    offered: T,
    before: Disk<T>,
    after: Disk<T>,
) -> bool {
    match (stage, report) {
        (UpgradeStage::LookingForInstalled, UpgradeReportView::Present(present)) => {
            &&& after == before
            &&& present == (before.installed is Some)
        },
        (UpgradeStage::LookingForInstalled, UpgradeReportView::Failed) => false,
        (UpgradeStage::LookingForBackup, UpgradeReportView::Failed) => false,
        (UpgradeStage::BackingUp, UpgradeReportView::Done) => {
            after == Disk { installed: None, backup: before.installed }
        },
        (UpgradeStage::Copying, UpgradeReportView::Done) => {
            after == Disk { installed: Some(offered), backup: before.backup }
        },
        (UpgradeStage::Copying, UpgradeReportView::Failed) => after.backup == before.backup,
        (UpgradeStage::LookingForBackup, UpgradeReportView::Present(present)) => {
            &&& after == before
            &&& present == (before.backup is Some)
        },
        (UpgradeStage::Restoring, UpgradeReportView::Done) => {
            after == Disk { installed: before.backup, backup: None }
        },
        (UpgradeStage::RemovingBackup, UpgradeReportView::Done) => {
            after == Disk { installed: before.installed, backup: None }
        },
        (UpgradeStage::RemovingBackup, UpgradeReportView::Failed) => after.installed
            == before.installed,
        _ => after == before,
    }
}

/// Whether `disks` can be what is on disk at first and after each of the steps
/// that ended with `reports`.
pub open spec fn is_history<T>(
    upgrade: UpgradeView,
    reports: Seq<UpgradeReportView>,
    offered: T,
    disks: Seq<Disk<T>>,
) -> bool {
    &&& disks.len() == reports.len() + 1
    &&& forall|i: int|
        0 <= i < reports.len() ==> step_effect(
            upgrade.after_all(reports.take(i)).stage,
            #[trigger] reports[i],
            offered,
            disks[i],
            disks[i + 1],
        )
}

/// A history without its last step is a history, and what the last step did is
/// what a step at the stage before it can do.
proof fn lemma_earlier_history<T>(
    upgrade: UpgradeView,
    reports: Seq<UpgradeReportView>,
    offered: T,
    disks: Seq<Disk<T>>,
)
    requires
        is_history(upgrade, reports, offered, disks),
        reports.len() > 0,
    ensures
        is_history(upgrade, reports.drop_last(), offered, disks.drop_last()),
        reports.take(reports.len() - 1) == reports.drop_last(),
        step_effect(
            upgrade.after_all(reports.drop_last()).stage,
            reports.last(),
            offered,
            disks.drop_last().last(),
            disks.last(),
        ),
{
    let at = reports.len() - 1;
    let earlier = reports.drop_last();
    assert forall|i: int| 0 <= i < earlier.len() implies step_effect(
        upgrade.after_all(earlier.take(i)).stage,
        #[trigger] earlier[i],
        offered,
        disks.drop_last()[i],
        disks.drop_last()[i + 1],
    ) by {
        assert(earlier.take(i) =~= reports.take(i));
        assert(earlier[i] == reports[i]);
    }
    assert(reports.take(at) =~= earlier);
    assert(reports[at] == reports.last());
}

/// What holds of the disk at each stage, where `first` is what was on it at
/// first and something was installed.
spec fn nothing_lost<T>(stage: UpgradeStage, offered: T, first: Disk<T>, disk: Disk<T>) -> bool {
    match stage {
        UpgradeStage::Copying => disk.backup == first.installed,
        UpgradeStage::LookingForBackup => disk.backup == first.installed,
        UpgradeStage::Restoring => disk.backup == first.installed,
        UpgradeStage::RemovingBackup => disk.installed == Some(offered) || disk.installed
            == first.installed,
        UpgradeStage::Finished => disk.installed == Some(offered) || disk.installed
            == first.installed,
        UpgradeStage::Stopped => {
            disk.installed == Some(offered) || disk.installed == first.installed || disk.backup
                == first.installed
        },
        _ => disk == first,
    }
}

proof fn lemma_step_loses_nothing<T>(
    upgrade: UpgradeView,
    report: UpgradeReportView,
    offered: T,
    first: Disk<T>,
    before: Disk<T>,
    after: Disk<T>,
)
    requires
        first.installed is Some,
        nothing_lost(upgrade.stage, offered, first, before),
        step_effect(upgrade.stage, report, offered, before, after),
    ensures
        nothing_lost(upgrade.after(report).stage, offered, first, after),
{
}

proof fn lemma_nothing_lost<T>(
    upgrade: UpgradeView,
    reports: Seq<UpgradeReportView>,
    offered: T,
    disks: Seq<Disk<T>>,
)
    requires
        upgrade.stage == UpgradeStage::Created,
        is_history(upgrade, reports, offered, disks),
        disks[0].installed is Some,
    ensures
        nothing_lost(upgrade.after_all(reports).stage, offered, disks[0], disks.last()),
    decreases reports.len(),
{
    if reports.len() > 0 {
        lemma_earlier_history(upgrade, reports, offered, disks);
        lemma_nothing_lost(upgrade, reports.drop_last(), offered, disks.drop_last());
        lemma_step_loses_nothing(
            upgrade.after_all(reports.drop_last()),
            reports.last(),
            offered,
            disks[0],
            disks.drop_last().last(),
            disks.last(),
        );
    }
}

/// An installed plugin is never lost. When an upgrade is finished, either the
/// plugin that comes with the host is installed or what was installed before is.
/// When one is stopped, what was installed before may be the backup instead.
pub proof fn law_installed_plugin_is_never_lost<T>(
    upgrade: UpgradeView,
    reports: Seq<UpgradeReportView>,
    offered: T,
    disks: Seq<Disk<T>>,
)
    requires
        upgrade.stage == UpgradeStage::Created,
        is_history(upgrade, reports, offered, disks),
        disks[0].installed is Some,
    ensures
        upgrade.after_all(reports).stage == UpgradeStage::Finished ==> disks.last().installed
            == Some(offered) || disks.last().installed == disks[0].installed,
        upgrade.after_all(reports).stage == UpgradeStage::Stopped ==> disks.last().installed
            == Some(offered) || disks.last().installed == disks[0].installed
            || disks.last().backup == disks[0].installed,
{
    lemma_nothing_lost(upgrade, reports, offered, disks);
}

/// Whether nothing failed to be copied.
pub open spec fn copies_succeed(upgrade: UpgradeView, reports: Seq<UpgradeReportView>) -> bool {
    forall|i: int|
        0 <= i < reports.len() && upgrade.after_all(reports.take(i)).stage
            == UpgradeStage::Copying ==> !(#[trigger] reports[i] is Failed)
}

/// What holds of the disk at each stage, where `first` is what was on it at
/// first and nothing fails to be copied.
spec fn is_upgraded<T>(upgrade: UpgradeView, offered: T, first: Disk<T>, disk: Disk<T>) -> bool {
    match upgrade.stage {
        UpgradeStage::Created => disk == first,
        UpgradeStage::ReadingOffered => disk == first,
        UpgradeStage::ReadingInstalled => disk == first && !upgrade.app_updated,
        UpgradeStage::LookingForBackup => false,
        UpgradeStage::Restoring => false,
        UpgradeStage::RemovingBackup => disk.installed == Some(offered),
        UpgradeStage::Finished => disk.installed == Some(offered) || !upgrade.app_updated && disk
            == first,
        _ => true,
    }
}

proof fn lemma_earlier_copies(upgrade: UpgradeView, reports: Seq<UpgradeReportView>)
    requires
        copies_succeed(upgrade, reports),
        reports.len() > 0,
    ensures
        copies_succeed(upgrade, reports.drop_last()),
{
    let earlier = reports.drop_last();
    assert forall|i: int|
        0 <= i < earlier.len() && upgrade.after_all(earlier.take(i)).stage
            == UpgradeStage::Copying implies !(#[trigger] earlier[i] is Failed) by {
        assert(earlier.take(i) =~= reports.take(i));
        assert(earlier[i] == reports[i]);
    }
}

proof fn lemma_step_upgrades<T>(
    upgrade: UpgradeView,
    report: UpgradeReportView,
    offered: T,
    first: Disk<T>,
    before: Disk<T>,
    after: Disk<T>,
)
    requires
        is_upgraded(upgrade, offered, first, before),
        step_effect(upgrade.stage, report, offered, before, after),
        !(upgrade.stage == UpgradeStage::Copying && report is Failed),
    ensures
        is_upgraded(upgrade.after(report), offered, first, after),
{
}

proof fn lemma_is_upgraded<T>(
    upgrade: UpgradeView,
    reports: Seq<UpgradeReportView>,
    offered: T,
    disks: Seq<Disk<T>>,
)
    requires
        upgrade.stage == UpgradeStage::Created,
        is_history(upgrade, reports, offered, disks),
        copies_succeed(upgrade, reports),
    ensures
        upgrade.after_all(reports).app_updated == upgrade.app_updated,
        is_upgraded(upgrade.after_all(reports), offered, disks[0], disks.last()),
    decreases reports.len(),
{
    if reports.len() > 0 {
        let at = reports.len() - 1;
        let earlier = reports.drop_last();
        lemma_earlier_history(upgrade, reports, offered, disks);
        lemma_earlier_copies(upgrade, reports);
        lemma_is_upgraded(upgrade, earlier, offered, disks.drop_last());
        assert(upgrade.after_all(earlier).stage == UpgradeStage::Copying ==> !(
        reports[at] is Failed));
        lemma_step_upgrades(
            upgrade.after_all(earlier),
            reports.last(),
            offered,
            disks[0],
            disks.drop_last().last(),
            disks.last(),
        );
    }
}

/// Where nothing fails to be copied, a finished upgrade has installed what comes
/// with the host, unless the installed plugin was left as it was; and that is so
/// only if the host was not updated. The backup is gone where its removal was the
/// last thing done.
pub proof fn law_upgrade_installs_what_is_offered<T>(
    upgrade: UpgradeView,
    reports: Seq<UpgradeReportView>,
    offered: T,
    disks: Seq<Disk<T>>,
)
    requires
        upgrade.stage == UpgradeStage::Created,
        is_history(upgrade, reports, offered, disks),
        copies_succeed(upgrade, reports),
        upgrade.after_all(reports).stage == UpgradeStage::Finished,
    ensures
        disks.last().installed == Some(offered) || !upgrade.app_updated && disks.last()
            == disks[0],
        reports.last() is Done ==> disks.last().installed == Some(offered) && disks.last().backup
            is None,
{
    lemma_is_upgraded(upgrade, reports, offered, disks);
    let earlier = reports.drop_last();
    lemma_earlier_history(upgrade, reports, offered, disks);
    lemma_earlier_copies(upgrade, reports);
    lemma_is_upgraded(upgrade, earlier, offered, disks.drop_last());
}

/// A copy that fails is undone: if there is a backup and it can be renamed, what
/// was installed before is installed again.
pub proof fn law_failed_copy_is_undone<T>(
    upgrade: UpgradeView,
    offered: T,
    copying: Disk<T>,
    spoilt: Disk<T>,
    looked: Disk<T>,
    restored: Disk<T>,
)
    requires
        upgrade.stage == UpgradeStage::Copying,
        copying.backup is Some,
        step_effect(upgrade.stage, UpgradeReportView::Failed, offered, copying, spoilt),
        step_effect(
            UpgradeStage::LookingForBackup,
            UpgradeReportView::Present(true),
            offered,
            spoilt,
            looked,
        ),
        step_effect(
            UpgradeStage::Restoring,
            UpgradeReportView::Done,
            offered,
            looked,
            restored,
        ),
    ensures
        upgrade.after(UpgradeReportView::Failed).stage == UpgradeStage::LookingForBackup,
        upgrade.after(UpgradeReportView::Failed).after(UpgradeReportView::Present(true)).stage
            == UpgradeStage::Restoring,
        restored.installed == copying.backup,
{
}

/// Whether the versions that `reports` give are those of what was read.
/// `version_of` is the version of what a directory holds, if it has one that can
/// be read.
pub open spec fn reads_versions<T>(
    upgrade: UpgradeView,
    reports: Seq<UpgradeReportView>,
    offered: T,
    disks: Seq<Disk<T>>,
    version_of: spec_fn(T) -> Option<Seq<char>>,
) -> bool {
    forall|i: int|
        0 <= i < reports.len() ==> reads_version(
            upgrade.after_all(reports.take(i)).stage,
            #[trigger] reports[i],
            offered,
            disks[i],
            version_of,
        )
}

/// Whether the version that `report` gives is that of what is read at `stage`.
pub open spec fn reads_version<T>(
    stage: UpgradeStage,
    report: UpgradeReportView,
    offered: T,
    disk: Disk<T>,
    version_of: spec_fn(T) -> Option<Seq<char>>,
) -> bool {
    match stage {
        UpgradeStage::ReadingOffered => report == reading(version_of(offered)),
        UpgradeStage::ReadingInstalled => report == reading(version_installed(disk, version_of)),
        _ => true,
    }
}

/// The report of reading a version.
pub open spec fn reading(version: Option<Seq<char>>) -> UpgradeReportView {
    match version {
        Some(version) => UpgradeReportView::Version(version),
        None => UpgradeReportView::Failed,
    }
}

/// The version of the installed plugin, if there is one and it can be read.
pub open spec fn version_installed<T>(
    disk: Disk<T>,
    version_of: spec_fn(T) -> Option<Seq<char>>,
) -> Option<Seq<char>> {
    match disk.installed {
        Some(installed) => version_of(installed),
        None => None,
    }
}

/// Whether the installed plugin is up to date with the offered one: both have
/// versions, and that of the installed one is not older.
pub open spec fn is_current<T>(
    disk: Disk<T>,
    offered: T,
    version_of: spec_fn(T) -> Option<Seq<char>>,
) -> bool {
    match (version_installed(disk, version_of), version_of(offered)) {
        (Some(installed), Some(offered)) => version::is_version(offered) && !outdated(
            installed,
            offered,
        ),
        _ => false,
    }
}

proof fn lemma_earlier_readings<T>(
    upgrade: UpgradeView,
    reports: Seq<UpgradeReportView>,
    offered: T,
    disks: Seq<Disk<T>>,
    version_of: spec_fn(T) -> Option<Seq<char>>,
)
    requires
        reads_versions(upgrade, reports, offered, disks, version_of),
        disks.len() == reports.len() + 1,
        reports.len() > 0,
    ensures
        reads_versions(upgrade, reports.drop_last(), offered, disks.drop_last(), version_of),
        reads_version(
            upgrade.after_all(reports.drop_last()).stage,
            reports.last(),
            offered,
            disks.drop_last().last(),
            version_of,
        ),
{
    let at = reports.len() - 1;
    let earlier = reports.drop_last();
    assert forall|i: int| 0 <= i < earlier.len() implies reads_version(
        upgrade.after_all(earlier.take(i)).stage,
        #[trigger] earlier[i],
        offered,
        disks.drop_last()[i],
        version_of,
    ) by {
        assert(earlier.take(i) =~= reports.take(i));
        assert(earlier[i] == reports[i]);
    }
    assert(reports.take(at) =~= earlier);
    assert(reports[at] == reports.last());
}

/// What holds at each stage where nothing fails to be copied and versions are
/// read as they are.
spec fn becomes_current<T>(
    upgrade: UpgradeView,
    offered: T,
    disk: Disk<T>,
    version_of: spec_fn(T) -> Option<Seq<char>>,
) -> bool {
    let known = upgrade.offered is Some && upgrade.offered == version_of(offered)
        && version::is_version(upgrade.offered->0);
    match upgrade.stage {
        UpgradeStage::Created => true,
        UpgradeStage::ReadingOffered => true,
        UpgradeStage::LookingForBackup => false,
        UpgradeStage::Restoring => false,
        UpgradeStage::RemovingBackup => known && disk.installed == Some(offered),
        UpgradeStage::Finished => is_current(disk, offered, version_of),
        UpgradeStage::Stopped => true,
        _ => known,
    }
}

proof fn lemma_step_becomes_current<T>(
    upgrade: UpgradeView,
    report: UpgradeReportView,
    offered: T,
    before: Disk<T>,
    after: Disk<T>,
    version_of: spec_fn(T) -> Option<Seq<char>>,
)
    requires
        becomes_current(upgrade, offered, before, version_of),
        step_effect(upgrade.stage, report, offered, before, after),
        reads_version(upgrade.stage, report, offered, before, version_of),
        !(upgrade.stage == UpgradeStage::Copying && report is Failed),
    ensures
        becomes_current(upgrade.after(report), offered, after, version_of),
{
}

proof fn lemma_becomes_current<T>(
    upgrade: UpgradeView,
    reports: Seq<UpgradeReportView>,
    offered: T,
    disks: Seq<Disk<T>>,
    version_of: spec_fn(T) -> Option<Seq<char>>,
)
    requires
        upgrade.stage == UpgradeStage::Created,
        is_history(upgrade, reports, offered, disks),
        reads_versions(upgrade, reports, offered, disks, version_of),
        copies_succeed(upgrade, reports),
    ensures
        becomes_current(upgrade.after_all(reports), offered, disks.last(), version_of),
    decreases reports.len(),
{
    if reports.len() > 0 {
        let earlier = reports.drop_last();
        lemma_earlier_history(upgrade, reports, offered, disks);
        lemma_earlier_copies(upgrade, reports);
        lemma_earlier_readings(upgrade, reports, offered, disks, version_of);
        lemma_becomes_current(upgrade, earlier, offered, disks.drop_last(), version_of);
        assert(upgrade.after_all(earlier).stage == UpgradeStage::Copying ==> !(
        reports[reports.len() - 1] is Failed));
        lemma_step_becomes_current(
            upgrade.after_all(earlier),
            reports.last(),
            offered,
            disks.drop_last().last(),
            disks.last(),
            version_of,
        );
    }
}

/// Where nothing fails to be copied, a finished upgrade leaves a plugin that is up
/// to date.
pub proof fn law_finished_upgrade_is_current<T>(
    upgrade: UpgradeView,
    reports: Seq<UpgradeReportView>,
    offered: T,
    disks: Seq<Disk<T>>,
    version_of: spec_fn(T) -> Option<Seq<char>>,
)
    requires
        upgrade.stage == UpgradeStage::Created,
        is_history(upgrade, reports, offered, disks),
        reads_versions(upgrade, reports, offered, disks, version_of),
        copies_succeed(upgrade, reports),
    ensures
        upgrade.after_all(reports).stage == UpgradeStage::Finished ==> is_current(
            disks.last(),
            offered,
            version_of,
        ),
{
    lemma_becomes_current(upgrade, reports, offered, disks, version_of);
}

/// What holds at each stage where the installed plugin is up to date and the host
/// was not updated.
spec fn is_left_alone<T>(
    upgrade: UpgradeView,
    offered: T,
    version_of: spec_fn(T) -> Option<Seq<char>>,
) -> bool {
    &&& !upgrade.app_updated
    &&& match upgrade.stage {
        UpgradeStage::Created => true,
        UpgradeStage::ReadingOffered => true,
        UpgradeStage::ReadingInstalled => upgrade.offered == version_of(offered),
        UpgradeStage::Finished => true,
        UpgradeStage::Stopped => true,
        _ => false,
    }
}

/// A plugin that is up to date is left alone: unless the host was updated, nothing
/// of it is touched.
pub proof fn law_current_plugin_is_left_alone<T>(
    upgrade: UpgradeView,
    reports: Seq<UpgradeReportView>,
    offered: T,
    disks: Seq<Disk<T>>,
    version_of: spec_fn(T) -> Option<Seq<char>>,
)
    requires
        upgrade.stage == UpgradeStage::Created,
        !upgrade.app_updated,
        is_history(upgrade, reports, offered, disks),
        reads_versions(upgrade, reports, offered, disks, version_of),
    ensures
        is_current(disks[0], offered, version_of) ==> disks.last() == disks[0],
{
    if is_current(disks[0], offered, version_of) {
        lemma_left_alone(upgrade, reports, offered, disks, version_of);
    }
}

proof fn lemma_left_alone<T>(
    upgrade: UpgradeView,
    reports: Seq<UpgradeReportView>,
    offered: T,
    disks: Seq<Disk<T>>,
    version_of: spec_fn(T) -> Option<Seq<char>>,
)
    requires
        upgrade.stage == UpgradeStage::Created,
        !upgrade.app_updated,
        is_history(upgrade, reports, offered, disks),
        reads_versions(upgrade, reports, offered, disks, version_of),
        is_current(disks[0], offered, version_of),
    ensures
        is_left_alone(upgrade.after_all(reports), offered, version_of),
        disks.last() == disks[0],
    decreases reports.len(),
{
    if reports.len() > 0 {
        lemma_earlier_history(upgrade, reports, offered, disks);
        lemma_earlier_readings(upgrade, reports, offered, disks, version_of);
        lemma_left_alone(upgrade, reports.drop_last(), offered, disks.drop_last(), version_of);
    }
}

/// A second run of the same build replaces no plugin that the first one brought
/// up to date. `debug` builds are left out: they replace all plugins every time.
/// The first run stored the mark of the build; its upgrade of the plugin is
/// finished, and nothing failed to be copied. The second run finds that mark, and
/// what is installed as the first run left it; and it leaves that as it is.
pub proof fn law_second_run_replaces_nothing<T>(
    version: Seq<char>,
    commit: Option<Seq<char>>,
    first: UpgradeView,
    first_reports: Seq<UpgradeReportView>,
    first_disks: Seq<Disk<T>>,
    second: UpgradeView,
    second_reports: Seq<UpgradeReportView>,
    second_disks: Seq<Disk<T>>,
    offered: T,
    version_of: spec_fn(T) -> Option<Seq<char>>,
)
    requires
        first.stage == UpgradeStage::Created,
        is_history(first, first_reports, offered, first_disks),
        reads_versions(first, first_reports, offered, first_disks, version_of),
        copies_succeed(first, first_reports),
        first.after_all(first_reports).stage == UpgradeStage::Finished,
        second.stage == UpgradeStage::Created,
        second.app_updated == initialisation::is_updated(
            false,
            initialisation::build_mark(version, commit),
            Some(initialisation::build_mark(version, commit)),
        ),
        is_history(second, second_reports, offered, second_disks),
        reads_versions(second, second_reports, offered, second_disks, version_of),
        second_disks[0].installed == first_disks.last().installed,
    ensures
        second_disks.last() == second_disks[0],
{
    law_finished_upgrade_is_current(first, first_reports, offered, first_disks, version_of);
    law_current_plugin_is_left_alone(second, second_reports, offered, second_disks, version_of);
}

/// A version decides whether the installed plugin is replaced: it is if its text
/// is no version, or is one that is less than the offered one and not the same
/// text; and it is not otherwise.
pub proof fn law_older_and_unversioned_plugins_are_outdated(
    installed: Seq<char>,
    offered: Seq<char>,
)
    ensures
        !version::is_version(installed) ==> outdated(installed, offered),
        version::is_version(installed) && installed == offered ==> !outdated(installed, offered),
        version::is_version(installed) && installed != offered ==> outdated(installed, offered)
            == version::version_less(installed, offered),
{
}

/// What to do about a plugin is decided from its version first. Without one it is
/// refused. If the host was updated, or the installed plugin has no version that
/// can be read or is outdated, what is installed is looked for. Otherwise nothing
/// is left to be done.
pub proof fn law_versions_decide(upgrade: UpgradeView, offered: Seq<char>, installed: Seq<char>)
    requires
        upgrade.stage == UpgradeStage::Created,
    ensures
        ({
            let started = upgrade.after(UpgradeReportView::Start);
            let known = started.after(UpgradeReportView::Version(offered));
            &&& forall|step: UpgradeStep| #[trigger]
                upgrade.asks_for(UpgradeReportView::Start, step) <==> step is ReadOffered
            &&& forall|step: UpgradeStep| #[trigger]
                started.asks_for(UpgradeReportView::Failed, step) <==> step is Abort
            &&& !version::is_version(offered) ==> forall|step: UpgradeStep| #[trigger]
                started.asks_for(UpgradeReportView::Version(offered), step) <==> step is Refuse
            &&& version::is_version(offered) && upgrade.app_updated ==> forall|step: UpgradeStep|
             #[trigger]
                started.asks_for(UpgradeReportView::Version(offered), step)
                    <==> step is LookForInstalled
            &&& version::is_version(offered) && !upgrade.app_updated ==> {
                &&& forall|step: UpgradeStep| #[trigger]
                    started.asks_for(UpgradeReportView::Version(offered), step)
                        <==> step is ReadInstalled
                &&& forall|step: UpgradeStep| #[trigger]
                    known.asks_for(UpgradeReportView::Failed, step) <==> step is LookForInstalled
                &&& !version::is_version(installed) || installed != offered
                    && version::version_less(installed, offered) ==> forall|step: UpgradeStep|
                 #[trigger]
                    known.asks_for(UpgradeReportView::Version(installed), step)
                        <==> step is LookForInstalled
                &&& version::is_version(installed) && (installed == offered
                    || !version::version_less(installed, offered)) ==> forall|step: UpgradeStep|
                 #[trigger]
                    known.asks_for(UpgradeReportView::Version(installed), step) <==> step is Finish
            }
        }),
{
}

/// A plugin is replaced in this order: what is installed is looked for and, if it
/// is there, renamed; then what is offered is copied. A copy that succeeds is
/// followed by the removal of the backup. After one that fails the backup is
/// looked for, renamed back if it is there, and removed. A renaming that fails
/// ends it all.
pub proof fn law_plugins_are_replaced_in_order(
    upgrade: UpgradeView,
    removal: UpgradeReportView,
)
    requires
        upgrade.stage == UpgradeStage::LookingForInstalled,
        removal is Done || removal is Failed,
    ensures
        ({
            let renaming = upgrade.after(UpgradeReportView::Present(true));
            let copying = renaming.after(UpgradeReportView::Done);
            let removing = copying.after(UpgradeReportView::Done);
            let looking = copying.after(UpgradeReportView::Failed);
            let restoring = looking.after(UpgradeReportView::Present(true));
            &&& forall|step: UpgradeStep| #[trigger]
                upgrade.asks_for(UpgradeReportView::Present(true), step) <==> step is BackUp
            &&& forall|step: UpgradeStep| #[trigger]
                upgrade.asks_for(UpgradeReportView::Present(false), step) <==> step is Copy
            &&& forall|step: UpgradeStep| #[trigger]
                upgrade.asks_for(UpgradeReportView::Failed, step) <==> step is Copy
            &&& forall|step: UpgradeStep| #[trigger]
                renaming.asks_for(UpgradeReportView::Done, step) <==> step is Copy
            &&& forall|step: UpgradeStep| #[trigger]
                renaming.asks_for(UpgradeReportView::Failed, step) <==> step is Abort
            &&& forall|step: UpgradeStep| #[trigger]
                copying.asks_for(UpgradeReportView::Done, step) <==> step is RemoveBackup
            &&& forall|step: UpgradeStep| #[trigger]
                copying.asks_for(UpgradeReportView::Failed, step) <==> step is LookForBackup
            &&& forall|step: UpgradeStep| #[trigger]
                looking.asks_for(UpgradeReportView::Present(true), step) <==> step is Restore
            &&& forall|step: UpgradeStep| #[trigger]
                looking.asks_for(UpgradeReportView::Present(false), step) <==> step is RemoveBackup
            &&& forall|step: UpgradeStep| #[trigger]
                looking.asks_for(UpgradeReportView::Failed, step) <==> step is RemoveBackup
            &&& forall|step: UpgradeStep| #[trigger]
                restoring.asks_for(UpgradeReportView::Done, step) <==> step is RemoveBackup
            &&& forall|step: UpgradeStep| #[trigger]
                restoring.asks_for(UpgradeReportView::Failed, step) <==> step is Abort
            &&& forall|step: UpgradeStep| #[trigger]
                removing.asks_for(removal, step) <==> step is Finish
            &&& upgrade.after(UpgradeReportView::Present(false)) == copying
            &&& restoring.after(UpgradeReportView::Done) == removing
            &&& looking.after(UpgradeReportView::Present(false)) == removing
        }),
{
}

/// Each report is shown as what it is, with what it holds.
pub proof fn law_upgrade_reports_are_shown(report: UpgradeReport)
    ensures
        report is Start <==> report@ is Start,
        report is Done <==> report@ is Done,
        report is Failed <==> report@ is Failed,
        report is Version <==> report@ is Version,
        report matches UpgradeReport::Version(version) ==> report@ == UpgradeReportView::Version(
            version@,
        ),
        report is Present <==> report@ is Present,
        report matches UpgradeReport::Present(present) ==> report@ == UpgradeReportView::Present(
            present,
        ),
{
}

/// An installed plugin that is outdated, or that has no version that can be read,
/// is replaced: a finished upgrade in which nothing failed to be copied has
/// installed what comes with the host.
pub proof fn law_outdated_plugin_is_replaced<T>(
    upgrade: UpgradeView,
    reports: Seq<UpgradeReportView>,
    offered: T,
    disks: Seq<Disk<T>>,
    version_of: spec_fn(T) -> Option<Seq<char>>,
)
    requires
        upgrade.stage == UpgradeStage::Created,
        is_history(upgrade, reports, offered, disks),
        reads_versions(upgrade, reports, offered, disks, version_of),
        copies_succeed(upgrade, reports),
        upgrade.after_all(reports).stage == UpgradeStage::Finished,
    ensures
        version_of(offered) is Some,
        version::is_version(version_of(offered)->0),
        disks[0].installed is None ==> disks.last().installed == Some(offered),
        disks[0].installed matches Some(installed) ==> {
            &&& version_of(installed) is None ==> disks.last().installed == Some(offered)
            &&& version_of(installed) matches Some(version) ==> (!version::is_version(version)
                || version != version_of(offered)->0 && version::version_less(
                version,
                version_of(offered)->0,
            )) ==> disks.last().installed == Some(offered)
        },
{
    lemma_becomes_current(upgrade, reports, offered, disks, version_of);
    law_upgrade_installs_what_is_offered(upgrade, reports, offered, disks);
}

} // verus!
