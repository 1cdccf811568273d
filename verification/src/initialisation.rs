//! The steps in which the plugins are initialised.
//!
//! An [`Initialisation`] first brings the plugins that come with the host up to
//! date, then initialises all that are installed. It says what to do next, and is
//! told how it went. `B` is a plugin that comes with the host, and `P` an entry of
//! the plugins directory.

use crate::text;
use vstd::prelude::*;
use vstd::string::*;

verus! {

/// What is being done to initialise the plugins.
#[derive(Clone, Copy, Debug, PartialEq, Eq, Structural)]
pub enum InitialisationStage {
    Created,
    ListingBundled,
    Upgrading,
    StoringMark,
    ListingPlugins,
    StartingSpawner,
    Examining,
    Finished,
    Stopped,
}

/// What is to be done next.
#[derive(Debug, PartialEq, Eq)]
pub enum InitialisationStep<B, P> {
    /// List the plugins that come with the host.
    ListBundled,
    /// Bring one of them up to date. `app_updated` is whether it is replaced
    /// whatever the version of the installed one.
    Upgrade { bundled: B, app_updated: bool },
    /// Store the mark of this build of the host for the next time.
    StoreMark(String),
    /// List the plugins directory.
    ListPlugins,
    /// Start the spawner, which starts the processes of plugins.
    StartSpawner,
    /// See whether an entry of the plugins directory is a plugin, and initialise
    /// it if it is.
    Examine(P),
    /// Nothing is left to be done.
    Finish,
    /// What was to be done could not be done.
    Abort,
}

pub enum InitialisationStepView<B, P> {
    ListBundled,
    Upgrade { bundled: B, app_updated: bool },
    StoreMark(Seq<char>),
    ListPlugins,
    StartSpawner,
    Examine(P),
    Finish,
    Abort,
}

impl<B, P> View for InitialisationStep<B, P> {
    type V = InitialisationStepView<B, P>;

    open spec fn view(&self) -> InitialisationStepView<B, P> {
        match self {
            InitialisationStep::ListBundled => InitialisationStepView::ListBundled,
            InitialisationStep::Upgrade { bundled, app_updated } =>
                InitialisationStepView::Upgrade { bundled: *bundled, app_updated: *app_updated },
            InitialisationStep::StoreMark(mark) => InitialisationStepView::StoreMark(mark@),
            InitialisationStep::ListPlugins => InitialisationStepView::ListPlugins,
            InitialisationStep::StartSpawner => InitialisationStepView::StartSpawner,
            InitialisationStep::Examine(entry) => InitialisationStepView::Examine(*entry),
            InitialisationStep::Finish => InitialisationStepView::Finish,
            InitialisationStep::Abort => InitialisationStepView::Abort,
        }
    }
}

/// How the last step went.
#[derive(Debug, PartialEq, Eq)]
pub enum InitialisationReport<B, P> {
    /// There was no step yet.
    Start,
    Done,
    Failed,
    /// The plugins that come with the host.
    Bundled(Vec<B>),
    /// The entries of the plugins directory.
    Plugins(Vec<P>),
}

pub enum InitialisationReportView<B, P> {
    Start,
    Done,
    Failed,
    Bundled(Seq<B>),
    Plugins(Seq<P>),
}

impl<B, P> View for InitialisationReport<B, P> {
    type V = InitialisationReportView<B, P>;

    open spec fn view(&self) -> InitialisationReportView<B, P> {
        match self {
            InitialisationReport::Start => InitialisationReportView::Start,
            InitialisationReport::Done => InitialisationReportView::Done,
            InitialisationReport::Failed => InitialisationReportView::Failed,
            InitialisationReport::Bundled(bundled) => InitialisationReportView::Bundled(bundled@),
            InitialisationReport::Plugins(entries) => InitialisationReportView::Plugins(entries@),
        }
    }
}

/// The plugins, while they are being initialised.
#[derive(Debug, PartialEq, Eq)]
pub struct Initialisation<B, P> {
    build: String,
    app_updated: bool,
    bundled: Vec<B>,
    entries: Vec<P>,
    stage: InitialisationStage,
}

#[verifier::ext_equal]
pub struct InitialisationView<B, P> {
    /// The mark of this build of the host.
    pub build: Seq<char>,
    /// Whether the plugins that come with the host are replaced whatever the
    /// versions of the installed ones.
    pub app_updated: bool,
    /// The plugins that come with the host and are left to bring up to date.
    pub bundled: Seq<B>,
    /// The entries of the plugins directory that are left to examine.
    pub entries: Seq<P>,
    pub stage: InitialisationStage,
}

impl<B, P> View for Initialisation<B, P> {
    type V = InitialisationView<B, P>;

    closed spec fn view(&self) -> InitialisationView<B, P> {
        InitialisationView {
            build: self.build@,
            app_updated: self.app_updated,
            bundled: self.bundled@,
            entries: self.entries@,
            stage: self.stage,
        }
    }
}

/// The mark of a build.
pub open spec fn build_mark(version: Seq<char>, commit: Option<Seq<char>>) -> Seq<char> {
    version + "_"@ + match commit {
        Some(commit) => commit,
        None => Seq::empty(),
    }
}

/// Whether the host was updated since the mark `stored` was stored. A build for
/// debugging always counts as updated.
pub open spec fn is_updated(debug: bool, build: Seq<char>, stored: Option<Seq<char>>) -> bool {
    debug || stored != Some(build)
}

/// An optional text, as a value.
pub open spec fn optional_view(text: Option<&str>) -> Option<Seq<char>> {
    match text {
        Some(text) => Some(text@),
        None => None,
    }
}

/// Begins to initialise the plugins. `stored` is the mark of the build that did
/// so last, if there is one, and `debug` whether this build is for debugging.
pub fn initialise_plugins<B, P>(
    debug: bool,
    version: &str,
    commit: Option<&str>,
    stored: Option<&str>,
) -> (result: Initialisation<B, P>)
    ensures
        result@ == (InitialisationView {
            build: build_mark(version@, optional_view(commit)),
            app_updated: is_updated(
                debug,
                build_mark(version@, optional_view(commit)),
                optional_view(stored),
            ),
            bundled: Seq::<B>::empty(),
            entries: Seq::<P>::empty(),
            stage: InitialisationStage::Created,
        }),
{
    let mut build = version.to_owned().concat("_");
    if let Some(commit) = commit {
        build = build.concat(commit);
    } else {
        assert(build@ + Seq::<char>::empty() =~= build@);
    }
    let app_updated = debug || match stored {
        Some(stored) => !text::same_text(stored, build.as_str()),
        None => true,
    };
    Initialisation {
        build,
        app_updated,
        bundled: Vec::new(),
        entries: Vec::new(),
        stage: InitialisationStage::Created,
    }
}

impl<B, P> InitialisationView<B, P> {
    /// The state in which the first of `pending` is brought up to date, and what
    /// there is to do for that. After the last one the mark is stored.
    pub open spec fn upgrading(self, pending: Seq<B>) -> (Self, InitialisationStepView<B, P>) {
        if pending.len() > 0 {
            (
                InitialisationView {
                    bundled: pending.drop_first(),
                    stage: InitialisationStage::Upgrading,
                    ..self
                },
                InitialisationStepView::Upgrade {
                    bundled: pending[0],
                    app_updated: self.app_updated,
                },
            )
        } else {
            (
                InitialisationView {
                    bundled: pending,
                    stage: InitialisationStage::StoringMark,
                    ..self
                },
                InitialisationStepView::StoreMark(self.build),
            )
        }
    }

    /// The state in which the first of `pending` is examined, and what there is
    /// to do for that. After the last one nothing is left to be done.
    pub open spec fn examining(self, pending: Seq<P>) -> (Self, InitialisationStepView<B, P>) {
        if pending.len() > 0 {
            (
                InitialisationView {
                    entries: pending.drop_first(),
                    stage: InitialisationStage::Examining,
                    ..self
                },
                InitialisationStepView::Examine(pending[0]),
            )
        } else {
            (
                InitialisationView {
                    entries: pending,
                    stage: InitialisationStage::Finished,
                    ..self
                },
                InitialisationStepView::Finish,
            )
        }
    }

    /// The state in which the plugins directory is listed, and that it is to be.
    pub open spec fn listing_plugins(self) -> (Self, InitialisationStepView<B, P>) {
        (
            InitialisationView { stage: InitialisationStage::ListingPlugins, ..self },
            InitialisationStepView::ListPlugins,
        )
    }

    /// The state that `report` leads to, and what to do then. Whatever fails on
    /// the way to the plugins directory does not keep the installed plugins from
    /// being initialised, and neither does one of them keep the others.
    pub open spec fn advanced(self, report: InitialisationReportView<B, P>) -> (
        Self,
        InitialisationStepView<B, P>,
    ) {
        match (self.stage, report) {
            (InitialisationStage::Created, InitialisationReportView::Start) => (
                InitialisationView { stage: InitialisationStage::ListingBundled, ..self },
                InitialisationStepView::ListBundled,
            ),
            (InitialisationStage::ListingBundled, InitialisationReportView::Bundled(bundled)) =>
                self.upgrading(bundled),
            (InitialisationStage::ListingBundled, InitialisationReportView::Failed) =>
                self.listing_plugins(),
            (InitialisationStage::Upgrading, InitialisationReportView::Done) => self.upgrading(
                self.bundled,
            ),
            (InitialisationStage::Upgrading, InitialisationReportView::Failed) => self.upgrading(
                self.bundled,
            ),
            (InitialisationStage::StoringMark, InitialisationReportView::Done) =>
                self.listing_plugins(),
            (InitialisationStage::StoringMark, InitialisationReportView::Failed) =>
                self.listing_plugins(),
            (InitialisationStage::ListingPlugins, InitialisationReportView::Plugins(entries)) => (
                InitialisationView {
                    entries,
                    stage: InitialisationStage::StartingSpawner,
                    ..self
                },
                InitialisationStepView::StartSpawner,
            ),
            (InitialisationStage::StartingSpawner, InitialisationReportView::Done) =>
                self.examining(self.entries),
            (InitialisationStage::Examining, InitialisationReportView::Done) => self.examining(
                self.entries,
            ),
            (InitialisationStage::Examining, InitialisationReportView::Failed) => self.examining(
                self.entries,
            ),
            _ => (
                InitialisationView { stage: InitialisationStage::Stopped, ..self },
                InitialisationStepView::Abort,
            ),
        }
    }

    /// The state that `report` leads to.
    pub open spec fn after(self, report: InitialisationReportView<B, P>) -> Self {
        self.advanced(report).0
    }

    /// What to do after `report`.
    pub open spec fn next_step(
        self,
        report: InitialisationReportView<B, P>,
    ) -> InitialisationStepView<B, P> {
        self.advanced(report).1
    }

    /// The state that several reports lead to.
    pub open spec fn after_all(self, reports: Seq<InitialisationReportView<B, P>>) -> Self
        decreases reports.len(),
    {
        if reports.len() == 0 {
            self
        } else {
            self.after_all(reports.drop_last()).after(reports.last())
        }
    }
}

impl<B, P> Initialisation<B, P> {
    /// Goes on to the next plugin that comes with the host.
    fn upgrade_next(&mut self) -> (step: InitialisationStep<B, P>)
        ensures
            (final(self)@, step@) == old(self)@.upgrading(old(self)@.bundled),
    {
        let ghost before = self@;
        if self.bundled.len() > 0 {
            let bundled = self.bundled.remove(0);
            self.stage = InitialisationStage::Upgrading;
            assert(self@.bundled =~= before.bundled.drop_first());
            InitialisationStep::Upgrade { bundled, app_updated: self.app_updated }
        } else {
            self.stage = InitialisationStage::StoringMark;
            InitialisationStep::StoreMark(self.build.clone())
        }
    }

    /// Goes on to the next entry of the plugins directory.
    fn examine_next(&mut self) -> (step: InitialisationStep<B, P>)
        ensures
            (final(self)@, step@) == old(self)@.examining(old(self)@.entries),
    {
        let ghost before = self@;
        if self.entries.len() > 0 {
            let entry = self.entries.remove(0);
            self.stage = InitialisationStage::Examining;
            assert(self@.entries =~= before.entries.drop_first());
            InitialisationStep::Examine(entry)
        } else {
            self.stage = InitialisationStage::Finished;
            InitialisationStep::Finish
        }
    }

    /// Reports how the last step went, and says what to do next.
    pub fn advance(&mut self, report: InitialisationReport<B, P>) -> (step: InitialisationStep<
        B,
        P,
    >)
        ensures
            final(self)@ == old(self)@.after(report@),
            step@ == old(self)@.next_step(report@),
    {
        match (self.stage, report) {
            (InitialisationStage::Created, InitialisationReport::Start) => {
                self.stage = InitialisationStage::ListingBundled;
                InitialisationStep::ListBundled
            },
            (InitialisationStage::ListingBundled, InitialisationReport::Bundled(bundled)) => {
                self.bundled = bundled;
                self.upgrade_next()
            },
            (InitialisationStage::Upgrading, InitialisationReport::Done) => self.upgrade_next(),
            (InitialisationStage::Upgrading, InitialisationReport::Failed) => self.upgrade_next(),
            (InitialisationStage::ListingBundled, InitialisationReport::Failed)
            | (InitialisationStage::StoringMark, InitialisationReport::Done)
            | (InitialisationStage::StoringMark, InitialisationReport::Failed) => {
                self.stage = InitialisationStage::ListingPlugins;
                InitialisationStep::ListPlugins
            },
            (InitialisationStage::ListingPlugins, InitialisationReport::Plugins(entries)) => {
                self.entries = entries;
                self.stage = InitialisationStage::StartingSpawner;
                InitialisationStep::StartSpawner
            },
            (InitialisationStage::StartingSpawner, InitialisationReport::Done) =>
                self.examine_next(),
            (InitialisationStage::Examining, InitialisationReport::Done) => self.examine_next(),
            (InitialisationStage::Examining, InitialisationReport::Failed) => self.examine_next(),
            _ => {
                self.stage = InitialisationStage::Stopped;
                InitialisationStep::Abort
            },
        }
    }
}

/// Whether each report says whether a step was done.
pub open spec fn are_outcomes<B, P>(reports: Seq<InitialisationReportView<B, P>>) -> bool {
    forall|i: int| 0 <= i < reports.len() ==> #[trigger] reports[i] is Done || reports[i] is Failed
}

/// Where the plugins that come with the host were listed, they are brought up to
/// date one after the other in that order, whatever becomes of the ones before.
/// Then, even if some could not be, the mark of the build is stored, and whether
/// or not that could be done, the plugins directory is listed.
pub proof fn law_mark_is_stored_after_all_upgrades<B, P>(
    start: InitialisationView<B, P>,
    bundled: Seq<B>,
    outcomes: Seq<InitialisationReportView<B, P>>,
    outcome: InitialisationReportView<B, P>,
)
    requires
        start.stage == InitialisationStage::ListingBundled,
        are_outcomes(outcomes),
        outcomes.len() < bundled.len(),
        outcome is Done || outcome is Failed,
    ensures
        ({
            let listing = InitialisationReportView::<B, P>::Bundled(bundled);
            let reached = start.after(listing).after_all(outcomes);
            &&& start.next_step(listing) == (InitialisationStepView::<B, P>::Upgrade {
                bundled: bundled[0],
                app_updated: start.app_updated,
            })
            &&& reached == (InitialisationView {
                bundled: bundled.skip(outcomes.len() as int + 1),
                stage: InitialisationStage::Upgrading,
                ..start
            })
            &&& outcomes.len() + 1 < bundled.len() ==> reached.next_step(outcome) == (
            InitialisationStepView::<B, P>::Upgrade {
                bundled: bundled[outcomes.len() as int + 1],
                app_updated: start.app_updated,
            })
            &&& outcomes.len() + 1 == bundled.len() ==> reached.next_step(outcome)
                == InitialisationStepView::<B, P>::StoreMark(start.build)
        }),
    decreases outcomes.len(),
{
    if outcomes.len() == 0 {
        assert(bundled.drop_first() =~= bundled.skip(1));
    } else {
        let earlier = outcomes.drop_last();
        assert(are_outcomes(earlier)) by {
            assert forall|i: int| 0 <= i < earlier.len() implies #[trigger] earlier[i] is Done
                || earlier[i] is Failed by {
                assert(earlier[i] == outcomes[i]);
            }
        }
        assert(outcomes[outcomes.len() - 1] == outcomes.last());
        law_mark_is_stored_after_all_upgrades(start, bundled, earlier, outcomes.last());
        assert(bundled.skip(outcomes.len() as int).drop_first() =~= bundled.skip(
            outcomes.len() as int + 1,
        ));
    }
}

/// Where no plugins come with the host, the mark of the build is stored at once.
/// Once there is an attempt to store it, the plugins directory is listed.
pub proof fn law_mark_is_stored_before_plugins_are_listed<B, P>(
    start: InitialisationView<B, P>,
    outcome: InitialisationReportView<B, P>,
)
    requires
        outcome is Done || outcome is Failed,
    ensures
        start.stage == InitialisationStage::ListingBundled ==> start.next_step(
            InitialisationReportView::<B, P>::Bundled(Seq::<B>::empty()),
        ) == InitialisationStepView::<B, P>::StoreMark(start.build),
        start.stage == InitialisationStage::StoringMark ==> start.next_step(outcome)
            == InitialisationStepView::<B, P>::ListPlugins,
{
}

/// Where the plugins that come with the host could not be listed, none of them is
/// brought up to date and the mark of the build is not stored, whatever happens
/// next; and the plugins directory is listed all the same.
pub proof fn law_nothing_is_replaced_unless_listed<B, P>(
    start: InitialisationView<B, P>,
    reports: Seq<InitialisationReportView<B, P>>,
    report: InitialisationReportView<B, P>,
)
    requires
        start.stage == InitialisationStage::ListingBundled,
    ensures
        start.next_step(InitialisationReportView::Failed) == InitialisationStepView::<
            B,
            P,
        >::ListPlugins,
        ({
            let reached = start.after(InitialisationReportView::Failed).after_all(reports);
            &&& !(reached.next_step(report) is Upgrade)
            &&& !(reached.next_step(report) is StoreMark)
            &&& reached.stage != InitialisationStage::Created
            &&& reached.stage != InitialisationStage::ListingBundled
            &&& reached.stage != InitialisationStage::Upgrading
            &&& reached.stage != InitialisationStage::StoringMark
        }),
    decreases reports.len(),
{
    if reports.len() > 0 {
        law_nothing_is_replaced_unless_listed(start, reports.drop_last(), reports.last());
    }
}

/// Once the plugins directory is listed, the spawner is started, and then each
/// entry is examined in the order in which it was listed, whatever becomes of the
/// ones before. Nothing is left to be done after the last one.
pub proof fn law_all_entries_are_examined<B, P>(
    start: InitialisationView<B, P>,
    entries: Seq<P>,
    outcomes: Seq<InitialisationReportView<B, P>>,
)
    requires
        start.stage == InitialisationStage::ListingPlugins,
        are_outcomes(outcomes),
        outcomes.len() > 0,
        outcomes[0] is Done,
        outcomes.len() <= entries.len() + 1,
    ensures
        ({
            let listing = InitialisationReportView::<B, P>::Plugins(entries);
            let before = start.after(listing).after_all(outcomes.drop_last());
            &&& start.next_step(listing) == InitialisationStepView::<B, P>::StartSpawner
            &&& before.next_step(outcomes.last()) == if outcomes.len() <= entries.len() {
                InitialisationStepView::<B, P>::Examine(entries[outcomes.len() - 1])
            } else {
                InitialisationStepView::<B, P>::Finish
            }
            &&& start.after(listing).after_all(outcomes) == (InitialisationView {
                entries: if outcomes.len() <= entries.len() {
                    entries.skip(outcomes.len() as int)
                } else {
                    Seq::<P>::empty()
                },
                stage: if outcomes.len() <= entries.len() {
                    InitialisationStage::Examining
                } else {
                    InitialisationStage::Finished
                },
                ..start
            })
        }),
    decreases outcomes.len(),
{
    let earlier = outcomes.drop_last();
    assert(outcomes[outcomes.len() - 1] == outcomes.last());
    if outcomes.len() == 1 {
        assert(earlier.len() == 0);
        if entries.len() > 0 {
            assert(entries.drop_first() =~= entries.skip(1));
        } else {
            assert(entries =~= Seq::<P>::empty());
        }
    } else {
        assert(are_outcomes(earlier)) by {
            assert forall|i: int| 0 <= i < earlier.len() implies #[trigger] earlier[i] is Done
                || earlier[i] is Failed by {
                assert(earlier[i] == outcomes[i]);
            }
        }
        assert(earlier[0] == outcomes[0]);
        law_all_entries_are_examined(start, entries, earlier);
        let pending = entries.skip(outcomes.len() - 1);
        if outcomes.len() <= entries.len() {
            assert(pending.drop_first() =~= entries.skip(outcomes.len() as int));
        } else {
            assert(pending =~= Seq::<P>::empty());
        }
    }
}

/// A build that is not for debugging and finds its own mark was not updated.
pub proof fn law_same_build_is_no_update(version: Seq<char>, commit: Option<Seq<char>>)
    ensures
        !is_updated(false, build_mark(version, commit), Some(build_mark(version, commit))),
{
}

/// A build that finds its own mark was not updated. One that finds any other mark,
/// or none, was. One for debugging always counts as updated.
pub proof fn law_any_other_mark_is_an_update(
    build: Seq<char>,
    stored: Option<Seq<char>>,
    debug: bool,
)
    ensures
        stored matches Some(mark) ==> mark != build ==> is_updated(false, build, stored),
        stored matches Some(mark) ==> mark == build ==> !is_updated(false, build, stored),
        stored is None ==> is_updated(debug, build, stored),
        is_updated(true, build, stored),
{
}

/// The mark of a build is its version and its commit with an underscore between
/// them, and where no commit is known nothing stands after the underscore.
pub proof fn law_mark_names_version_and_commit(version: Seq<char>, commit: Option<Seq<char>>)
    ensures
        ({
            let mark = build_mark(version, commit);
            &&& mark.take(version.len() as int) == version
            &&& mark[version.len() as int] == '_'
            &&& commit matches Some(commit) ==> mark.skip(version.len() as int + 1) == commit
            &&& commit is None ==> mark.len() == version.len() + 1
        }),
{
    reveal_strlit("_");
    assert("_"@.len() == 1);
    let mark = build_mark(version, commit);
    assert(mark.take(version.len() as int) =~= version);
    if let Some(commit) = commit {
        assert(mark.skip(version.len() as int + 1) =~= commit);
    }
}

/// Builds of the same version but different commits have different marks, and so
/// have builds of the same commit but different versions.
pub proof fn law_different_builds_have_different_marks(
    version: Seq<char>,
    commit: Seq<char>,
    other_version: Seq<char>,
    other_commit: Seq<char>,
)
    requires
        version == other_version || commit == other_commit,
        build_mark(version, Some(commit)) == build_mark(other_version, Some(other_commit)),
    ensures
        version == other_version,
        commit == other_commit,
{
    reveal_strlit("_");
    assert("_"@.len() == 1);
    law_mark_names_version_and_commit(version, Some(commit));
    law_mark_names_version_and_commit(other_version, Some(other_commit));
    assert(build_mark(version, Some(commit)).len() == version.len() + 1 + commit.len());
    assert(build_mark(other_version, Some(other_commit)).len() == other_version.len() + 1
        + other_commit.len());
}

/// An optional text shows the text that there is.
pub proof fn law_optional_texts_are_shown(text: Option<&str>)
    ensures
        optional_view(text) is Some <==> text is Some,
        text is Some ==> optional_view(text)->0 == text->0@,
{
}

/// The first thing to do is to list the plugins that come with the host. A plugins
/// directory that cannot be listed ends the initialisation, and so does a spawner
/// that cannot be started.
pub proof fn law_initialisation_begins_with_bundled_plugins<B, P>(
    start: InitialisationView<B, P>,
)
    ensures
        start.stage == InitialisationStage::Created ==> {
            &&& start.next_step(InitialisationReportView::Start) is ListBundled
            &&& start.after(InitialisationReportView::Start) == (InitialisationView {
                stage: InitialisationStage::ListingBundled,
                ..start
            })
        },
        start.stage == InitialisationStage::ListingPlugins || start.stage
            == InitialisationStage::StartingSpawner ==> start.next_step(
            InitialisationReportView::Failed,
        ) is Abort,
{
}

/// Each step is shown as what it is, with what it is about.
pub proof fn law_initialisation_steps_are_shown<B, P>(step: InitialisationStep<B, P>)
    ensures
        step is ListBundled <==> step@ is ListBundled,
        step is Upgrade <==> step@ is Upgrade,
        step matches InitialisationStep::Upgrade { bundled, app_updated } ==> step@ == (
        InitialisationStepView::<B, P>::Upgrade { bundled, app_updated }),
        step is StoreMark <==> step@ is StoreMark,
        step matches InitialisationStep::StoreMark(mark) ==> step@ == InitialisationStepView::<
            B,
            P,
        >::StoreMark(mark@),
        step is ListPlugins <==> step@ is ListPlugins,
        step is StartSpawner <==> step@ is StartSpawner,
        step is Examine <==> step@ is Examine,
        step matches InitialisationStep::Examine(entry) ==> step@ == InitialisationStepView::<
            B,
            P,
        >::Examine(entry),
        step is Finish <==> step@ is Finish,
        step is Abort <==> step@ is Abort,
{
}

/// Each report is shown as what it is, with what it holds.
pub proof fn law_initialisation_reports_are_shown<B, P>(report: InitialisationReport<B, P>)
    ensures
        report is Start <==> report@ is Start,
        report is Done <==> report@ is Done,
        report is Failed <==> report@ is Failed,
        report is Bundled <==> report@ is Bundled,
        report matches InitialisationReport::Bundled(bundled) ==> report@
            == InitialisationReportView::<B, P>::Bundled(bundled@),
        report is Plugins <==> report@ is Plugins,
        report matches InitialisationReport::Plugins(entries) ==> report@
            == InitialisationReportView::<B, P>::Plugins(entries@),
{
}

} // verus!
