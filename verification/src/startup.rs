//! The steps in which a plugin is started.
//!
//! A [`Startup`] says what to do next. Whoever does it reports how it went, and
//! is told the step after that, until the plugin runs or cannot be started.

use crate::categories;
use crate::categories::Category;
use crate::code;
use crate::code::{Code, CodeView, Launch};
use crate::devices;
use crate::error::PluginError;
use crate::instances::PluginChildType;
use crate::launch;
use crate::launch::{Command, CommandView, Window, WindowView};
use crate::manifest;
use crate::manifest::{Manifest, PreparedManifest};
use crate::platform::Platform;
use crate::registry::Registry;
use crate::text;
use vstd::prelude::*;

verus! {

/// What is being done to start a plugin.
#[derive(Clone, Copy, Debug, PartialEq, Eq, Structural)]
pub enum Stage {
    Created,
    FindingPage,
    OpeningWindow,
    LookingForMarker,
    ShowingWindow,
    QueryingVersion,
    Describing,
    EncodingDescription,
    RunningScript,
    RecordingWindow,
    OpeningLog,
    MakingExecutable,
    Queueing,
    Monitoring,
    Finished,
    Stopped,
}

/// What is to be done next.
#[derive(Debug, PartialEq, Eq)]
pub enum Step {
    /// Find where this file in the directory of the plugin is.
    FindPage(String),
    /// Open a window without showing it.
    OpenWindow(Window),
    /// See whether the directory of the plugin holds a file that asks for
    /// debugging.
    LookForMarker,
    /// Show the window with its developer tools.
    ShowWindow,
    /// Run the command that asks the program that runs plugins of this kind for
    /// its version.
    QueryVersion(PluginChildType, Command),
    /// Describe the host to a plugin of this version. `wine` is whether another
    /// program runs it.
    Describe { version: String, wine: bool },
    /// Write the description as text.
    EncodeDescription,
    /// Run a script in the window.
    RunScript(String),
    /// Record that the plugin runs in a window.
    RecordWindow,
    /// Open the file with this name for the output of the plugin.
    OpenLog(String),
    /// Make this file in the directory of the plugin executable.
    MakeExecutable(String),
    /// Hand a command to the spawner, which appends the description.
    Queue(PluginChildType, Command),
    /// Watch for these applications.
    Monitor(Vec<String>),
    /// The plugin is started.
    Succeed,
    /// The plugin cannot be started.
    Fail(PluginError),
    /// What was to be done could not be done.
    Abort,
}

pub enum StepView {
    FindPage(Seq<char>),
    OpenWindow(WindowView),
    LookForMarker,
    ShowWindow,
    QueryVersion(PluginChildType, CommandView),
    Describe { version: Seq<char>, wine: bool },
    EncodeDescription,
    RunScript(Seq<char>),
    RecordWindow,
    OpenLog(Seq<char>),
    MakeExecutable(Seq<char>),
    Queue(PluginChildType, CommandView),
    Monitor(Seq<Seq<char>>),
    Succeed,
    Fail(PluginError),
    Abort,
}

impl View for Step {
    type V = StepView;

    open spec fn view(&self) -> StepView {
        match self {
            Step::FindPage(path) => StepView::FindPage(path@),
            Step::OpenWindow(window) => StepView::OpenWindow(window@),
            Step::LookForMarker => StepView::LookForMarker,
            Step::ShowWindow => StepView::ShowWindow,
            Step::QueryVersion(child_type, command) => StepView::QueryVersion(
                *child_type,
                command@,
            ),
            Step::Describe { version, wine } => StepView::Describe {
                version: version@,
                wine: *wine,
            },
            Step::EncodeDescription => StepView::EncodeDescription,
            Step::RunScript(script) => StepView::RunScript(script@),
            Step::RecordWindow => StepView::RecordWindow,
            Step::OpenLog(name) => StepView::OpenLog(name@),
            Step::MakeExecutable(path) => StepView::MakeExecutable(path@),
            Step::Queue(child_type, command) => StepView::Queue(*child_type, command@),
            Step::Monitor(applications) => StepView::Monitor(
                text::text_views(applications@),
            ),
            Step::Succeed => StepView::Succeed,
            Step::Fail(error) => StepView::Fail(*error),
            Step::Abort => StepView::Abort,
        }
    }
}

/// How the last step went.
#[derive(Debug, PartialEq, Eq)]
pub enum Report {
    /// There was no step yet.
    Start,
    Done,
    Failed,
    /// A page was found, or the description was written.
    Text(String),
    /// Whether debugging is asked for.
    Marker(bool),
    /// What Node.js printed, if it could be run.
    Printed(Option<Vec<u8>>),
    /// Whether Wine succeeded, if it could be run.
    Exited(Option<bool>),
}

pub enum ReportView {
    Start,
    Done,
    Failed,
    Text(Seq<char>),
    Marker(bool),
    Printed(Option<Seq<u8>>),
    Exited(Option<bool>),
}

impl View for Report {
    type V = ReportView;

    open spec fn view(&self) -> ReportView {
        match self {
            Report::Start => ReportView::Start,
            Report::Done => ReportView::Done,
            Report::Failed => ReportView::Failed,
            Report::Text(text) => ReportView::Text(text@),
            Report::Marker(found) => ReportView::Marker(*found),
            Report::Printed(printed) => ReportView::Printed(
                match printed {
                    Some(bytes) => Some(bytes@),
                    None => None,
                },
            ),
            Report::Exited(exited) => ReportView::Exited(*exited),
        }
    }
}

impl ReportView {
    /// What a program prints as its version is text.
    pub open spec fn legible(self) -> bool {
        self matches ReportView::Printed(Some(bytes)) ==> vstd::utf8::valid_utf8(bytes)
    }
}

/// A plugin that is being started.
#[derive(Debug, PartialEq, Eq)]
pub struct Startup {
    plugin: String,
    title: String,
    version: String,
    code: Code,
    launch: Launch,
    applications: Option<Vec<String>>,
    platform: Platform,
    port_base: u16,
    flatpak: bool,
    stage: Stage,
}

#[verifier::ext_equal]
pub struct StartupView {
    pub plugin: Seq<char>,
    pub title: Seq<char>,
    pub version: Seq<char>,
    pub code: CodeView,
    pub launch: Launch,
    /// The applications to watch for on this operating system.
    pub applications: Option<Seq<Seq<char>>>,
    pub platform: Platform,
    pub port_base: u16,
    pub flatpak: bool,
    pub stage: Stage,
}

/// An optional list of texts, as a value.
pub open spec fn optional_texts(texts: Option<Vec<String>>) -> Option<Seq<Seq<char>>> {
    match texts {
        Some(texts) => Some(text::text_views(texts@)),
        None => None,
    }
}

impl View for Startup {
    type V = StartupView;

    closed spec fn view(&self) -> StartupView {
        StartupView {
            plugin: self.plugin@,
            title: self.title@,
            version: self.version@,
            code: self.code@,
            launch: self.launch,
            applications: optional_texts(self.applications),
            platform: self.platform,
            port_base: self.port_base,
            flatpak: self.flatpak,
            stage: self.stage,
        }
    }
}

/// The kind of process that a plugin gets.
pub open spec fn child_type(launch: Launch) -> Option<PluginChildType> {
    match launch {
        Launch::Webview => None,
        Launch::Node => Some(PluginChildType::Node),
        Launch::Wine => Some(PluginChildType::Wine),
        Launch::Native => Some(PluginChildType::Native),
    }
}

/// Whether what was reported of a version shows that the plugin can be run.
pub open spec fn version_suffices(launch: Launch, report: ReportView) -> bool {
    match (launch, report) {
        (Launch::Node, ReportView::Printed(Some(bytes))) => launch::node_answer_suffices(
            vstd::utf8::decode_utf8(bytes),
        ),
        (Launch::Wine, ReportView::Exited(Some(succeeded))) => succeeded,
        _ => false,
    }
}

impl StartupView {
    /// The stage after the plugin runs.
    pub open spec fn stage_once_running(self) -> Stage {
        if self.applications is Some {
            Stage::Monitoring
        } else {
            Stage::Finished
        }
    }

    /// The stage that `report` leads to. A report that the stage does not wait for
    /// stops the startup. So does a step that fails, except where the plugin runs
    /// as well without it: a marker that cannot be looked for is not there, and
    /// neither a window that cannot be shown nor applications that cannot be
    /// watched for keep the plugin from running.
    pub open spec fn next_stage(self, report: ReportView) -> Stage {
        match (self.stage, report) {
            (Stage::Created, ReportView::Start) => match self.launch {
                Launch::Webview => Stage::FindingPage,
                Launch::Node => Stage::QueryingVersion,
                Launch::Wine => Stage::QueryingVersion,
                Launch::Native => Stage::Describing,
            },
            (Stage::FindingPage, ReportView::Text(_)) => Stage::OpeningWindow,
            (Stage::OpeningWindow, ReportView::Done) => Stage::LookingForMarker,
            (Stage::LookingForMarker, ReportView::Marker(found)) => if found {
                Stage::ShowingWindow
            } else {
                Stage::Describing
            },
            (Stage::LookingForMarker, ReportView::Failed) => Stage::Describing,
            (Stage::ShowingWindow, ReportView::Done) => Stage::Describing,
            (Stage::ShowingWindow, ReportView::Failed) => Stage::Describing,
            (Stage::QueryingVersion, report) => if version_suffices(self.launch, report) {
                Stage::Describing
            } else {
                Stage::Stopped
            },
            (Stage::Describing, ReportView::Done) => if self.launch == Launch::Webview {
                Stage::EncodingDescription
            } else {
                Stage::OpeningLog
            },
            (Stage::EncodingDescription, ReportView::Text(_)) => Stage::RunningScript,
            (Stage::RunningScript, ReportView::Done) => Stage::RecordingWindow,
            (Stage::RecordingWindow, ReportView::Done) => self.stage_once_running(),
            (Stage::OpeningLog, ReportView::Done) => if self.launch == Launch::Native
                && self.platform != Platform::Windows {
                Stage::MakingExecutable
            } else {
                Stage::Queueing
            },
            (Stage::MakingExecutable, ReportView::Done) => Stage::Queueing,
            (Stage::Queueing, ReportView::Done) => self.stage_once_running(),
            (Stage::Monitoring, ReportView::Done) => Stage::Finished,
            (Stage::Monitoring, ReportView::Failed) => Stage::Finished,
            _ => Stage::Stopped,
        }
    }

    /// The state that `report` leads to.
    pub open spec fn after(self, report: ReportView) -> StartupView {
        StartupView { stage: self.next_stage(report), ..self }
    }

    /// The text in a report.
    pub open spec fn reported_text(report: ReportView) -> Seq<char> {
        match report {
            ReportView::Text(text) => text,
            _ => Seq::empty(),
        }
    }

    /// Why a startup stops at `report`: because a program that the plugin needs
    /// is missing, or because a step failed. A program that cannot be asked for
    /// its version is missing.
    pub open spec fn refusal(self, report: ReportView) -> StepView {
        match (self.stage, self.launch, report) {
            (Stage::QueryingVersion, Launch::Node, ReportView::Printed(_)) => StepView::Fail(
                PluginError::NodeRequired,
            ),
            (Stage::QueryingVersion, Launch::Wine, ReportView::Exited(_)) => StepView::Fail(
                PluginError::WineRequired,
            ),
            (Stage::QueryingVersion, Launch::Node, ReportView::Failed) => StepView::Fail(
                PluginError::NodeRequired,
            ),
            (Stage::QueryingVersion, Launch::Wine, ReportView::Failed) => StepView::Fail(
                PluginError::WineRequired,
            ),
            _ => StepView::Abort,
        }
    }

    /// What a stage is for. `text` is the text that was reported, and `refusal`
    /// is what there is to say where the startup stops.
    pub open spec fn step_at(self, stage: Stage, text: Seq<char>, refusal: StepView) -> StepView {
        match stage {
            Stage::Created => StepView::Abort,
            Stage::FindingPage => StepView::FindPage(self.code.path),
            Stage::OpeningWindow => StepView::OpenWindow(
                launch::plugin_window(self.plugin, self.title, text, self.port_base),
            ),
            Stage::LookingForMarker => StepView::LookForMarker,
            Stage::ShowingWindow => StepView::ShowWindow,
            Stage::QueryingVersion => StepView::QueryVersion(
                child_type(self.launch)->0,
                launch::version_query(child_type(self.launch)->0, self.flatpak)->0,
            ),
            Stage::Describing => StepView::Describe {
                version: self.version,
                wine: self.launch == Launch::Node || self.launch == Launch::Wine,
            },
            Stage::EncodingDescription => StepView::EncodeDescription,
            Stage::RunningScript => StepView::RunScript(
                launch::connection_script(self.port_base, self.plugin, text),
            ),
            Stage::RecordingWindow => StepView::RecordWindow,
            Stage::OpeningLog => StepView::OpenLog(launch::log_name(self.plugin)),
            Stage::MakingExecutable => StepView::MakeExecutable(self.code.path),
            Stage::Queueing => StepView::Queue(
                child_type(self.launch)->0,
                launch::start(
                    child_type(self.launch)->0,
                    self.code.path,
                    self.plugin,
                    self.port_base,
                    self.flatpak,
                ),
            ),
            Stage::Monitoring => StepView::Monitor(self.applications->0),
            Stage::Finished => StepView::Succeed,
            Stage::Stopped => refusal,
        }
    }

    /// What to do after `report`: what the stage that it leads to is for.
    pub open spec fn next_step(self, report: ReportView) -> StepView {
        self.step_at(
            self.next_stage(report),
            Self::reported_text(report),
            self.refusal(report),
        )
    }
}

fn process_kind(launch: Launch) -> (kind: Option<PluginChildType>)
    ensures
        kind == child_type(launch),
{
    match launch {
        Launch::Webview => None,
        Launch::Node => Some(PluginChildType::Node),
        Launch::Wine => Some(PluginChildType::Wine),
        Launch::Native => Some(PluginChildType::Native),
    }
}

impl Startup {
    /// Files are served two ports above the one that plugins connect to. Only a
    /// plugin with a process of its own is queued.
    #[verifier::type_invariant]
    spec fn well_formed(self) -> bool {
        &&& self.port_base + 2 <= u16::MAX
        &&& self.stage == Stage::OpeningLog || self.stage == Stage::MakingExecutable
            || self.stage == Stage::QueryingVersion ==> self.launch != Launch::Webview
    }

    fn stage_once_running(&self) -> (stage: Stage)
        ensures
            stage == self@.stage_once_running(),
    {
        match self.applications {
            Some(_) => Stage::Monitoring,
            None => Stage::Finished,
        }
    }

    /// The stage that a report without contents leads to.
    fn stage_after_success(&self) -> (stage: Stage)
        requires
            self@.stage != Stage::QueryingVersion,
        ensures
            stage == self@.next_stage(ReportView::Done),
    {
        match self.stage {
            Stage::OpeningWindow => Stage::LookingForMarker,
            Stage::ShowingWindow => Stage::Describing,
            Stage::Describing => if self.launch == Launch::Webview {
                Stage::EncodingDescription
            } else {
                Stage::OpeningLog
            },
            Stage::RunningScript => Stage::RecordingWindow,
            Stage::RecordingWindow => self.stage_once_running(),
            Stage::OpeningLog => if self.launch == Launch::Native && self.platform
                != Platform::Windows {
                Stage::MakingExecutable
            } else {
                Stage::Queueing
            },
            Stage::MakingExecutable => Stage::Queueing,
            Stage::Queueing => self.stage_once_running(),
            Stage::Monitoring => Stage::Finished,
            _ => Stage::Stopped,
        }
    }

    /// Reports how the last step went, and says what to do next.
    pub fn advance(&mut self, report: Report) -> (step: Step)
        requires
            report@.legible(),
        ensures
            final(self)@ == old(self)@.after(report@),
            step@ == old(self)@.next_step(report@),
    {
        proof {
            use_type_invariant(&*self);
        }
        let ghost reported = report@;
        let mut text = String::new();
        let mut refusal = Step::Abort;
        let stage = match (self.stage, report) {
            (Stage::QueryingVersion, Report::Printed(printed)) => if self.launch == Launch::Node {
                match launch::check_node(printed) {
                    Ok(_) => Stage::Describing,
                    Err(error) => {
                        refusal = Step::Fail(error);
                        Stage::Stopped
                    },
                }
            } else {
                Stage::Stopped
            },
            (Stage::QueryingVersion, Report::Exited(exited)) => if self.launch == Launch::Wine {
                match launch::check_wine(exited) {
                    Ok(_) => Stage::Describing,
                    Err(error) => {
                        refusal = Step::Fail(error);
                        Stage::Stopped
                    },
                }
            } else {
                Stage::Stopped
            },
            (Stage::QueryingVersion, Report::Failed) => {
                if self.launch == Launch::Node {
                    refusal = Step::Fail(PluginError::NodeRequired);
                } else if self.launch == Launch::Wine {
                    refusal = Step::Fail(PluginError::WineRequired);
                }
                Stage::Stopped
            },
            (Stage::QueryingVersion, _) => Stage::Stopped,
            (Stage::Created, Report::Start) => match self.launch {
                Launch::Webview => Stage::FindingPage,
                Launch::Node => Stage::QueryingVersion,
                Launch::Wine => Stage::QueryingVersion,
                Launch::Native => Stage::Describing,
            },
            (Stage::FindingPage, Report::Text(page)) => {
                text = page;
                Stage::OpeningWindow
            },
            (Stage::EncodingDescription, Report::Text(description)) => {
                text = description;
                Stage::RunningScript
            },
            (Stage::LookingForMarker, Report::Marker(found)) => if found {
                Stage::ShowingWindow
            } else {
                Stage::Describing
            },
            (Stage::LookingForMarker, Report::Failed) => Stage::Describing,
            (Stage::ShowingWindow, Report::Failed) => Stage::Describing,
            (Stage::Monitoring, Report::Failed) => Stage::Finished,
            (_, Report::Done) => self.stage_after_success(),
            _ => Stage::Stopped,
        };
        assert(stage == self@.next_stage(reported));
        let step = self.step_at(stage, text.as_str(), refusal);
        self.stage = stage;
        step
    }

    /// What a stage is for.
    fn step_at(&self, stage: Stage, text: &str, refusal: Step) -> (step: Step)
        requires
            self.port_base + 2 <= u16::MAX,
            stage == Stage::QueryingVersion ==> self.launch == Launch::Node || self.launch
                == Launch::Wine,
            stage == Stage::Queueing ==> self.launch != Launch::Webview,
            stage == Stage::Monitoring ==> self.applications is Some,
        ensures
            step@ == self@.step_at(stage, text@, refusal@),
    {
        let plugin = self.plugin.as_str();
        let kind = process_kind(self.launch);
        match stage {
            Stage::Created => Step::Abort,
            Stage::FindingPage => Step::FindPage(self.code.path.clone()),
            Stage::OpeningWindow => Step::OpenWindow(
                launch::plan_window(plugin, self.title.as_str(), text, self.port_base),
            ),
            Stage::LookingForMarker => Step::LookForMarker,
            Stage::ShowingWindow => Step::ShowWindow,
            Stage::QueryingVersion => Step::QueryVersion(
                kind.unwrap(),
                launch::query_version(kind.unwrap(), self.flatpak).unwrap(),
            ),
            Stage::Describing => Step::Describe {
                version: self.version.clone(),
                wine: self.launch == Launch::Node || self.launch == Launch::Wine,
            },
            Stage::EncodingDescription => Step::EncodeDescription,
            Stage::RunningScript => Step::RunScript(
                launch::write_script(self.port_base, plugin, text),
            ),
            Stage::RecordingWindow => Step::RecordWindow,
            Stage::OpeningLog => Step::OpenLog(launch::log_file_name(plugin)),
            Stage::MakingExecutable => Step::MakeExecutable(self.code.path.clone()),
            Stage::Queueing => Step::Queue(
                kind.unwrap(),
                launch::start_command(
                    kind.unwrap(),
                    self.code.path.as_str(),
                    plugin,
                    self.port_base,
                    self.flatpak,
                ),
            ),
            Stage::Monitoring => {
                let mut applications: Vec<String> = Vec::new();
                match &self.applications {
                    Some(all) => {
                        let mut i: usize = 0;
                        while i < all.len()
                            invariant
                                i <= all.len(),
                                applications@.len() == i,
                                forall|j: int|
                                    0 <= j < i ==> #[trigger] applications@[j]@ == all@[j]@,
                            decreases all.len() - i,
                        {
                            applications.push(all[i].clone());
                            i += 1;
                        }
                        assert(text::text_views(applications@) =~= text::text_views(all@));
                    },
                    None => {},
                }
                Step::Monitor(applications)
            },
            Stage::Finished => Step::Succeed,
            Stage::Stopped => refusal,
        }
    }
}

/// The applications that a plugin watches for on `platform`.
pub open spec fn watched(
    applications: Option<Registry<Vec<String>>>,
    platform: Platform,
) -> Option<Seq<Seq<char>>> {
    match applications {
        Some(applications) => if applications@.contains_key(platform.label()) {
            Some(text::text_views(applications@[platform.label()]@))
        } else {
            None
        },
        None => None,
    }
}

/// The namespaces after a plugin has claimed the one that its manifest names.
pub open spec fn with_claim(
    owned: Map<Seq<char>, Seq<char>>,
    namespace: Option<Seq<char>>,
    plugin: Seq<char>,
) -> Map<Seq<char>, Seq<char>> {
    match namespace {
        Some(namespace) => owned.insert(namespace, plugin),
        None => owned,
    }
}

/// Initialises a plugin whose files have been looked up: offers its actions,
/// claims its namespace, and chooses the code to start. The first two happen
/// whether or not there is such code.
pub fn initialise_plugin<D>(
    categories: &mut Registry<Category<D>>,
    namespaces: &mut Registry<String>,
    prepared: PreparedManifest<D>,
    platform: Platform,
    target: &str,
    port_base: u16,
    flatpak: bool,
) -> (result: Result<Startup, PluginError>)
    requires
        port_base + 2 <= u16::MAX,
    ensures
        categories::category_views(final(categories)@) == categories::with_offer(
            categories::category_views(old(categories)@),
            prepared.manifest().category@,
            text::optional_text(prepared.manifest().category_icon),
            manifest::action_views(prepared.manifest().actions@),
        ),
        forall|i: int|
            0 <= i < prepared.manifest().actions@.len() ==> (
            #[trigger] prepared.manifest().actions@[i]).plugin@ == prepared.plugin(),
        devices::owners(final(namespaces)@) == with_claim(
            devices::owners(old(namespaces)@),
            text::optional_text(prepared.manifest().device_namespace),
            prepared.plugin(),
        ),
        match result {
            Ok(startup) => {
                let chosen = code::chosen_code(
                    prepared.manifest().os@,
                    prepared.manifest().code,
                    platform,
                    target@,
                );
                &&& chosen is Some
                &&& startup@ == (StartupView {
                    plugin: prepared.plugin(),
                    title: prepared.manifest().name@,
                    version: prepared.manifest().version@,
                    code: chosen->0,
                    launch: code::launch_of(
                        text::lowercase(chosen->0.path),
                        chosen->0.wine,
                    ),
                    applications: watched(prepared.manifest().applications_to_monitor, platform),
                    platform,
                    port_base,
                    flatpak,
                    stage: Stage::Created,
                })
                &&& vstd::utf8::is_ascii_chars(chosen->0.path) ==> startup@.launch
                    == code::launch_of(
                    chosen->0.path.map_values(|c: char| text::ascii_lower(c)),
                    chosen->0.wine,
                )
            },
            Err(error) => {
                &&& code::chosen_code(
                    prepared.manifest().os@,
                    prepared.manifest().code,
                    platform,
                    target@,
                ) is None
                &&& error == PluginError::UnsupportedPlatform(platform)
            },
        },
{
    let (plugin, manifest) = prepared.into_parts();
    let Manifest {
        name,
        version,
        category,
        category_icon,
        actions,
        property_inspector_path: _,
        device_namespace,
        os,
        code: paths,
        applications_to_monitor,
    } = manifest;
    categories::offer_actions(categories, category, category_icon, actions);
    if let Some(namespace) = device_namespace {
        let _ = devices::claim_namespace(namespaces, namespace, plugin.as_str());
    }
    let chosen = match code::choose_code(&os, &paths, platform, target) {
        Ok(chosen) => chosen,
        Err(error) => {
            return Err(error);
        },
    };
    let applications = match applications_to_monitor {
        Some(mut applications) => applications.remove(platform.name()),
        None => None,
    };
    let launch = chosen.launch();
    Ok(
        Startup {
            plugin,
            title: name,
            version,
            code: chosen,
            launch,
            applications,
            platform,
            port_base,
            flatpak,
            stage: Stage::Created,
        },
    )
}

impl Stage {
    /// Whether nothing is left to be done.
    pub open spec fn is_last(self) -> bool {
        self == Stage::Finished || self == Stage::Stopped
    }

    /// How many reports it takes to the end of the startup, at most.
    pub open spec fn reports_left(self) -> nat {
        match self {
            Stage::Created => 10,
            Stage::FindingPage => 9,
            Stage::OpeningWindow => 8,
            Stage::LookingForMarker => 7,
            Stage::ShowingWindow => 6,
            Stage::QueryingVersion => 6,
            Stage::Describing => 5,
            Stage::EncodingDescription => 4,
            Stage::RunningScript => 3,
            Stage::RecordingWindow => 2,
            Stage::OpeningLog => 4,
            Stage::MakingExecutable => 3,
            Stage::Queueing => 2,
            Stage::Monitoring => 1,
            Stage::Finished => 0,
            Stage::Stopped => 0,
        }
    }
}

/// Every report brings a startup nearer to its end.
pub proof fn law_startup_makes_progress(startup: StartupView, report: ReportView)
    requires
        !startup.stage.is_last(),
    ensures
        startup.after(report).stage.reports_left() < startup.stage.reports_left(),
{
}

/// A startup that has ended stays ended, and has nothing more to do.
pub proof fn law_ended_startup_does_nothing(startup: StartupView, report: ReportView)
    requires
        startup.stage.is_last(),
    ensures
        startup.after(report).stage == Stage::Stopped,
        startup.next_step(report) == StepView::Abort,
{
}

impl Stage {
    /// Whether the plugin runs as well without what the stage is for.
    pub open spec fn is_optional(self) -> bool {
        self == Stage::LookingForMarker || self == Stage::ShowingWindow || self
            == Stage::Monitoring
    }
}

/// A step that failed stops a startup, unless the plugin runs as well without
/// it.
pub proof fn law_failure_stops_startup(startup: StartupView)
    requires
        !startup.stage.is_optional(),
    ensures
        startup.after(ReportView::Failed).stage == Stage::Stopped,
        startup.next_step(ReportView::Failed) is Abort || startup.stage == Stage::QueryingVersion
            && startup.next_step(ReportView::Failed) is Fail,
{
}

/// A step without which the plugin runs as well does not stop a startup when it
/// fails: it goes on as if there were no marker, as if the window were shown, and
/// as if the applications were watched for.
pub proof fn law_optional_failures_are_ignored(startup: StartupView)
    ensures
        startup.stage == Stage::LookingForMarker ==> startup.after(ReportView::Failed)
            == startup.after(ReportView::Marker(false)),
        startup.stage == Stage::ShowingWindow || startup.stage == Stage::Monitoring
            ==> startup.after(ReportView::Failed) == startup.after(ReportView::Done),
        startup.stage.is_optional() ==> startup.after(ReportView::Failed).stage != Stage::Stopped,
{
}

/// Only a plugin that is a page is shown in a window, and only a plugin with a
/// process of its own is handed to the spawner, with the kind of its process.
pub proof fn law_plugins_run_as_they_were_chosen_to(startup: StartupView, report: ReportView)
    requires
        startup.reachable(),
    ensures
        startup.next_step(report) is OpenWindow || startup.next_step(report) is RecordWindow
            ==> startup.launch == Launch::Webview,
        startup.next_step(report) matches StepView::Queue(kind, _) ==> child_type(startup.launch)
            == Some(kind),
        startup.after(report).reachable(),
{
}

impl StartupView {
    /// Whether a startup can be at its stage: each stage is for some ways to run
    /// a plugin only.
    pub open spec fn reachable(self) -> bool {
        match self.stage {
            Stage::FindingPage | Stage::OpeningWindow | Stage::LookingForMarker
            | Stage::ShowingWindow | Stage::EncodingDescription | Stage::RunningScript
            | Stage::RecordingWindow => self.launch == Launch::Webview,
            Stage::QueryingVersion => self.launch == Launch::Node || self.launch == Launch::Wine,
            Stage::MakingExecutable => self.launch == Launch::Native && self.platform
                != Platform::Windows,
            Stage::OpeningLog | Stage::Queueing => self.launch != Launch::Webview,
            Stage::Monitoring => self.applications is Some,
            _ => true,
        }
    }

    /// The state that several reports lead to.
    pub open spec fn after_all(self, reports: Seq<ReportView>) -> StartupView
        decreases reports.len(),
    {
        if reports.len() == 0 {
            self
        } else {
            self.after_all(reports.drop_last()).after(reports.last())
        }
    }
}

proof fn lemma_reports_left(startup: StartupView, reports: Seq<ReportView>)
    ensures
        startup.after_all(reports).stage.is_last() || startup.after_all(
            reports,
        ).stage.reports_left() + reports.len() <= startup.stage.reports_left(),
    decreases reports.len(),
{
    if reports.len() > 0 {
        lemma_reports_left(startup, reports.drop_last());
    }
}

/// A startup ends after ten reports at the latest, whatever they say.
pub proof fn law_startup_ends(startup: StartupView, reports: Seq<ReportView>)
    requires
        reports.len() >= 10,
    ensures
        startup.after_all(reports).stage.is_last(),
{
    lemma_reports_left(startup, reports);
}

/// Whether one of the reports shows that the program that the plugin needs is
/// there.
pub open spec fn version_was_found(launch: Launch, reports: Seq<ReportView>) -> bool {
    exists|i: int| 0 <= i < reports.len() && version_suffices(launch, #[trigger] reports[i])
}

proof fn lemma_version_before_description(startup: StartupView, reports: Seq<ReportView>)
    requires
        startup.stage == Stage::Created,
        startup.launch == Launch::Node || startup.launch == Launch::Wine,
    ensures
        ({
            let reached = startup.after_all(reports);
            &&& reached.launch == startup.launch
            &&& reached.stage == Stage::Created || reached.stage == Stage::QueryingVersion
                || reached.stage == Stage::Stopped || version_was_found(startup.launch, reports)
            &&& reached.reachable()
        }),
    decreases reports.len(),
{
    if reports.len() > 0 {
        let first = reports.drop_last();
        lemma_version_before_description(startup, first);
        let before = startup.after_all(first);
        if version_was_found(startup.launch, first) {
            let i = choose|i: int|
                0 <= i < first.len() && version_suffices(startup.launch, #[trigger] first[i]);
            assert(version_suffices(startup.launch, reports[i]));
        } else if before.stage == Stage::QueryingVersion && version_suffices(
            startup.launch,
            reports.last(),
        ) {
            assert(version_suffices(startup.launch, reports[reports.len() - 1]));
        }
    }
}

/// A plugin that needs Node.js or Wine is handed to the spawner, or finished, only
/// if that program was found good enough.
pub proof fn law_needed_programs_are_checked_first(
    startup: StartupView,
    reports: Seq<ReportView>,
)
    requires
        startup.stage == Stage::Created,
        startup.launch == Launch::Node || startup.launch == Launch::Wine,
    ensures
        startup.after_all(reports).stage == Stage::Queueing || startup.after_all(reports).stage
            == Stage::Finished ==> version_was_found(startup.launch, reports),
{
    lemma_version_before_description(startup, reports);
}

/// A plugin for this operating system needs no other program: on successes alone
/// it is described, given a log, made executable except on Windows, queued with
/// its own command and, if it watches for applications, monitored.
pub proof fn law_native_startup_succeeds(startup: StartupView)
    requires
        startup.stage == Stage::Created,
        startup.launch == Launch::Native,
    ensures
        ({
            let described = startup.after(ReportView::Start);
            let logged = described.after(ReportView::Done);
            let executable = logged.after(ReportView::Done);
            let queued = if startup.platform == Platform::Windows {
                executable
            } else {
                executable.after(ReportView::Done)
            };
            let running = queued.after(ReportView::Done);
            let finished = if startup.applications is Some {
                running.after(ReportView::Done)
            } else {
                running
            };
            &&& described.stage == Stage::Describing
            &&& logged.stage == Stage::OpeningLog
            &&& queued.stage == Stage::Queueing
            &&& finished.stage == Stage::Finished
        }),
{
}

/// What is handed to the spawner is the command that starts the chosen code as
/// the plugin, and only a plugin whose log is open gets there.
pub proof fn law_queued_command_starts_the_plugin(startup: StartupView, report: ReportView)
    requires
        startup.reachable(),
    ensures
        startup.next_step(report) matches StepView::Queue(kind, command) ==> {
            &&& startup.stage == Stage::OpeningLog || startup.stage == Stage::MakingExecutable
            &&& report is Done
            &&& command == launch::start(
                kind,
                startup.code.path,
                startup.plugin,
                startup.port_base,
                startup.flatpak,
            )
        },
{
}

/// A plugin that Node.js or Wine runs starts once that program is found good
/// enough: it is described, given a log, queued and, if it watches for
/// applications, monitored.
pub proof fn law_startup_with_a_runner_succeeds(startup: StartupView, answer: ReportView)
    requires
        startup.stage == Stage::Created,
        startup.launch == Launch::Node || startup.launch == Launch::Wine,
        version_suffices(startup.launch, answer),
    ensures
        ({
            let asked = startup.after(ReportView::Start);
            let described = asked.after(answer);
            let logged = described.after(ReportView::Done);
            let queued = logged.after(ReportView::Done);
            let running = queued.after(ReportView::Done);
            let finished = if startup.applications is Some {
                running.after(ReportView::Done)
            } else {
                running
            };
            &&& asked.stage == Stage::QueryingVersion
            &&& described.stage == Stage::Describing
            &&& logged.stage == Stage::OpeningLog
            &&& logged.next_step(ReportView::Done) is Queue
            &&& finished.stage == Stage::Finished
        }),
{
}

/// A page that is a plugin starts in a window of its own: on successes alone it
/// is found, opened, described, told to connect and recorded, and, if it watches
/// for applications, monitored.
pub proof fn law_page_startup_succeeds(
    startup: StartupView,
    page: Seq<char>,
    debugged: bool,
    info: Seq<char>,
)
    requires
        startup.stage == Stage::Created,
        startup.launch == Launch::Webview,
    ensures
        ({
            let found = startup.after(ReportView::Start);
            let opened = found.after(ReportView::Text(page));
            let looked = opened.after(ReportView::Done);
            let marked = looked.after(ReportView::Marker(debugged));
            let described = if debugged {
                marked.after(ReportView::Done)
            } else {
                marked
            };
            let encoded = described.after(ReportView::Done);
            let connected = encoded.after(ReportView::Text(info));
            let recorded = connected.after(ReportView::Done);
            let running = recorded.after(ReportView::Done);
            let finished = if startup.applications is Some {
                running.after(ReportView::Done)
            } else {
                running
            };
            &&& found.next_step(ReportView::Text(page)) == StepView::OpenWindow(
                launch::plugin_window(startup.plugin, startup.title, page, startup.port_base),
            )
            &&& described.stage == Stage::Describing
            &&& encoded.next_step(ReportView::Text(info)) == StepView::RunScript(
                launch::connection_script(startup.port_base, startup.plugin, info),
            )
            &&& connected.next_step(ReportView::Done) == StepView::RecordWindow
            &&& finished.stage == Stage::Finished
        }),
{
}

/// The window that a plugin opens is the one that deactivating it closes.
pub proof fn law_opened_window_is_the_one_to_close(startup: StartupView, report: ReportView)
    ensures
        startup.next_step(report) matches StepView::OpenWindow(window) ==> window.label
            == crate::instances::window_label(startup.plugin),
{
}

impl Stage {
    /// Whether `report` tells how what the stage is for went.
    pub open spec fn awaits(self, report: ReportView) -> bool {
        match self {
            Stage::Created => report is Start,
            Stage::FindingPage => report is Text || report is Failed,
            Stage::LookingForMarker => report is Marker || report is Failed,
            Stage::QueryingVersion => report is Printed || report is Exited || report is Failed,
            Stage::EncodingDescription => report is Text || report is Failed,
            Stage::Finished => false,
            Stage::Stopped => false,
            _ => report is Done || report is Failed,
        }
    }
}

impl StartupView {
    /// Whether `reports` are those of one startup: each tells how the step before
    /// it went, and none comes after the end.
    pub open spec fn is_run(self, reports: Seq<ReportView>) -> bool
        decreases reports.len(),
    {
        reports.len() > 0 ==> {
            &&& self.is_run(reports.drop_last())
            &&& self.after_all(reports.drop_last()).stage.awaits(reports.last())
        }
    }

    /// How often the step of `stage` was done.
    pub open spec fn times_done(self, stage: Stage, reports: Seq<ReportView>) -> nat
        decreases reports.len(),
    {
        if reports.len() == 0 {
            0
        } else if self.after_all(reports.drop_last()).stage == stage && reports.last() is Done {
            self.times_done(stage, reports.drop_last()) + 1
        } else {
            self.times_done(stage, reports.drop_last())
        }
    }

    /// How often `stage` was reached.
    pub open spec fn times_reached(self, stage: Stage, reports: Seq<ReportView>) -> nat
        decreases reports.len(),
    {
        if reports.len() == 0 {
            0
        } else if self.after_all(reports).stage == stage {
            self.times_reached(stage, reports.drop_last()) + 1
        } else {
            self.times_reached(stage, reports.drop_last())
        }
    }
}

proof fn lemma_started_once(startup: StartupView, reports: Seq<ReportView>)
    requires
        startup.stage == Stage::Created,
        startup.is_run(reports),
    ensures
        ({
            let reached = startup.after_all(reports);
            let queued = startup.times_done(Stage::Queueing, reports);
            let recorded = startup.times_done(Stage::RecordingWindow, reports);
            let monitored = startup.times_reached(Stage::Monitoring, reports);
            let started: nat = if reached.stage == Stage::Monitoring || reached.stage
                == Stage::Finished {
                1
            } else {
                0
            };
            &&& reached.launch == startup.launch
            &&& reached.applications == startup.applications
            &&& reached.reachable()
            &&& queued == if startup.launch == Launch::Webview { 0 } else { started }
            &&& recorded == if startup.launch == Launch::Webview { started } else { 0 }
            &&& monitored == if startup.applications is Some { started } else { 0 }
        }),
    decreases reports.len(),
{
    if reports.len() > 0 {
        lemma_started_once(startup, reports.drop_last());
    }
}

/// A startup starts a plugin once or not at all. One that is finished has handed
/// exactly one command to the spawner if the plugin has a process of its own, and
/// recorded exactly one window if it is a page, and has asked exactly once to
/// watch for applications if the plugin wants that. One that is stopped has done
/// none of these.
pub proof fn law_plugins_are_started_once(startup: StartupView, reports: Seq<ReportView>)
    requires
        startup.stage == Stage::Created,
        startup.is_run(reports),
    ensures
        startup.after_all(reports).stage == Stage::Finished ==> {
            &&& startup.times_done(Stage::Queueing, reports) == if startup.launch
                == Launch::Webview {
                0nat
            } else {
                1
            }
            &&& startup.times_done(Stage::RecordingWindow, reports) == if startup.launch
                == Launch::Webview {
                1nat
            } else {
                0
            }
            &&& startup.times_reached(Stage::Monitoring, reports) == if startup.applications is Some {
                1nat
            } else {
                0
            }
        },
        startup.after_all(reports).stage == Stage::Stopped ==> {
            &&& startup.times_done(Stage::Queueing, reports) == 0
            &&& startup.times_done(Stage::RecordingWindow, reports) == 0
            &&& startup.times_reached(Stage::Monitoring, reports) == 0
        },
{
    lemma_started_once(startup, reports);
}

/// Each step is shown as what it is, with what it is about.
pub proof fn law_startup_steps_are_shown(step: Step)
    ensures
        step is FindPage <==> step@ is FindPage,
        step matches Step::FindPage(path) ==> step@ == StepView::FindPage(path@),
        step is OpenWindow <==> step@ is OpenWindow,
        step matches Step::OpenWindow(window) ==> step@ == StepView::OpenWindow(window@),
        step is LookForMarker <==> step@ is LookForMarker,
        step is ShowWindow <==> step@ is ShowWindow,
        step is QueryVersion <==> step@ is QueryVersion,
        step matches Step::QueryVersion(kind, command) ==> step@ == StepView::QueryVersion(
            kind,
            command@,
        ),
        step is Describe <==> step@ is Describe,
        step matches Step::Describe { version, wine } ==> step@ == (StepView::Describe {
            version: version@,
            wine,
        }),
        step is EncodeDescription <==> step@ is EncodeDescription,
        step is RunScript <==> step@ is RunScript,
        step matches Step::RunScript(script) ==> step@ == StepView::RunScript(script@),
        step is RecordWindow <==> step@ is RecordWindow,
        step is OpenLog <==> step@ is OpenLog,
        step matches Step::OpenLog(name) ==> step@ == StepView::OpenLog(name@),
        step is MakeExecutable <==> step@ is MakeExecutable,
        step matches Step::MakeExecutable(path) ==> step@ == StepView::MakeExecutable(path@),
        step is Queue <==> step@ is Queue,
        step matches Step::Queue(kind, command) ==> step@ == StepView::Queue(kind, command@),
        step is Monitor <==> step@ is Monitor,
        step matches Step::Monitor(applications) ==> {
            &&& step@->Monitor_0.len() == applications@.len()
            &&& forall|i: int|
                0 <= i < applications@.len() ==> #[trigger] step@->Monitor_0[i]
                    == applications@[i]@
        },
        step is Succeed <==> step@ is Succeed,
        step is Fail <==> step@ is Fail,
        step matches Step::Fail(error) ==> step@ == StepView::Fail(error),
        step is Abort <==> step@ is Abort,
{
}

/// Each report is shown as what it is, with what it holds. It is legible unless it
/// gives bytes that are no text.
pub proof fn law_startup_reports_are_shown(report: Report)
    ensures
        report is Start <==> report@ is Start,
        report is Done <==> report@ is Done,
        report is Failed <==> report@ is Failed,
        report is Text <==> report@ is Text,
        report matches Report::Text(text) ==> report@ == ReportView::Text(text@),
        report is Marker <==> report@ is Marker,
        report matches Report::Marker(found) ==> report@ == ReportView::Marker(found),
        report is Printed <==> report@ is Printed,
        report matches Report::Printed(Some(bytes)) ==> report@ == ReportView::Printed(
            Some(bytes@),
        ),
        report matches Report::Printed(None) ==> report@ == ReportView::Printed(None),
        report is Exited <==> report@ is Exited,
        report matches Report::Exited(exited) ==> report@ == ReportView::Exited(exited),
        report@.legible() <==> (report matches Report::Printed(Some(bytes))
            ==> vstd::utf8::valid_utf8(bytes@)),
{
}

/// A startup stays that of its plugin: a report changes nothing but how far it has
/// come.
pub proof fn law_startup_keeps_what_it_starts(startup: StartupView, report: ReportView)
    ensures
        startup.after(report).plugin == startup.plugin,
        startup.after(report).title == startup.title,
        startup.after(report).version == startup.version,
        startup.after(report).code == startup.code,
        startup.after(report).launch == startup.launch,
        startup.after(report).applications == startup.applications,
        startup.after(report).platform == startup.platform,
        startup.after(report).port_base == startup.port_base,
        startup.after(report).flatpak == startup.flatpak,
{
}

/// The applications that a plugin watches for are those that its manifest lists
/// under the name of the operating system that it runs on, in their order. It
/// watches for none where there is no such list.
pub proof fn law_applications_are_those_listed_for_the_system(
    applications: Option<Registry<Vec<String>>>,
    platform: Platform,
)
    ensures
        ({
            let name = match platform {
                Platform::Windows => "windows"@,
                Platform::Mac => "mac"@,
                Platform::Linux => "linux"@,
            };
            let listed = applications is Some && applications->0@.contains_key(name);
            let result = watched(applications, platform);
            &&& result is Some <==> listed
            &&& listed ==> {
                let list = applications->0@[name]@;
                &&& result->0.len() == list.len()
                &&& forall|i: int| 0 <= i < list.len() ==> #[trigger] result->0[i] == list[i]@
            }
        }),
{
}

/// A plugin whose manifest names a namespace has it afterwards, whoever had it
/// before; all other namespaces are as before, and all are where none is named.
pub proof fn law_claim_changes_one_namespace(
    owned: Map<Seq<char>, Seq<char>>,
    namespace: Option<Seq<char>>,
    plugin: Seq<char>,
    other: Seq<char>,
)
    ensures
        namespace matches Some(claimed) ==> {
            let after = with_claim(owned, namespace, plugin);
            &&& after.contains_key(claimed)
            &&& after[claimed] == plugin
            &&& other != claimed ==> (after.contains_key(other) <==> owned.contains_key(other))
            &&& other != claimed && owned.contains_key(other) ==> after[other] == owned[other]
        },
        namespace is None ==> with_claim(owned, namespace, plugin) == owned,
{
}

/// An optional list of texts shows each text of the list that there is.
pub proof fn law_optional_lists_are_shown(texts: Option<Vec<String>>)
    ensures
        optional_texts(texts) is Some <==> texts is Some,
        texts matches Some(list) ==> {
            &&& optional_texts(texts)->0.len() == list@.len()
            &&& forall|i: int|
                0 <= i < list@.len() ==> #[trigger] optional_texts(texts)->0[i] == list@[i]@
        },
{
}

/// Once a plugin runs, its applications are watched for if it has a list of them,
/// and after that, or without that, the startup has succeeded.
pub proof fn law_running_plugins_are_monitored(startup: StartupView, outcome: ReportView)
    requires
        startup.stage == Stage::RecordingWindow || startup.stage == Stage::Queueing,
        outcome is Done || outcome is Failed,
    ensures
        startup.applications is None ==> startup.next_step(ReportView::Done) is Succeed,
        startup.applications matches Some(applications) ==> {
            &&& startup.next_step(ReportView::Done) == StepView::Monitor(applications)
            &&& startup.after(ReportView::Done).next_step(outcome) is Succeed
        },
{
}

/// A program for this operating system is started in these steps: it is described,
/// not as one that another program runs; its log is opened; on all systems but
/// Windows its file is made executable; and it is queued.
pub proof fn law_steps_of_a_native_plugin(startup: StartupView)
    requires
        startup.stage == Stage::Created,
        startup.launch == Launch::Native,
    ensures
        ({
            let describing = startup.after(ReportView::Start);
            let logging = describing.after(ReportView::Done);
            let next = logging.after(ReportView::Done);
            let queue = StepView::Queue(
                PluginChildType::Native,
                launch::start(
                    PluginChildType::Native,
                    startup.code.path,
                    startup.plugin,
                    startup.port_base,
                    startup.flatpak,
                ),
            );
            &&& startup.next_step(ReportView::Start) == (StepView::Describe {
                version: startup.version,
                wine: false,
            })
            &&& describing.next_step(ReportView::Done) == StepView::OpenLog(
                startup.plugin + ".log"@,
            )
            &&& startup.platform == Platform::Windows ==> logging.next_step(ReportView::Done)
                == queue && next.stage == Stage::Queueing
            &&& startup.platform != Platform::Windows ==> {
                &&& logging.next_step(ReportView::Done) == StepView::MakeExecutable(
                    startup.code.path,
                )
                &&& next.next_step(ReportView::Done) == queue
                &&& next.after(ReportView::Done).stage == Stage::Queueing
            }
        }),
{
}

/// A script is started in these steps: Node.js is asked for its version; if it
/// answers with one that is not before `v20.0.0`, the plugin is described as one
/// that another program runs, its log is opened, and it is queued.
pub proof fn law_steps_of_a_script(startup: StartupView, printed: Seq<u8>)
    requires
        startup.stage == Stage::Created,
        startup.launch == Launch::Node,
        !text::comes_before(text::trimmed(vstd::utf8::decode_utf8(printed)), "v20.0.0"@),
    ensures
        ({
            let asking = startup.after(ReportView::Start);
            let describing = asking.after(ReportView::Printed(Some(printed)));
            let logging = describing.after(ReportView::Done);
            &&& startup.next_step(ReportView::Start) is QueryVersion
            &&& startup.next_step(ReportView::Start)->QueryVersion_0 == PluginChildType::Node
            &&& launch::version_query(PluginChildType::Node, startup.flatpak) == Some(
                startup.next_step(ReportView::Start)->QueryVersion_1,
            )
            &&& asking.next_step(ReportView::Printed(Some(printed))) is Describe
            &&& asking.next_step(ReportView::Printed(Some(printed)))->version == startup.version
            &&& asking.next_step(ReportView::Printed(Some(printed)))->wine
            &&& describing.next_step(ReportView::Done) == StepView::OpenLog(
                startup.plugin + ".log"@,
            )
            &&& logging.next_step(ReportView::Done) == StepView::Queue(
                PluginChildType::Node,
                launch::start(
                    PluginChildType::Node,
                    startup.code.path,
                    startup.plugin,
                    startup.port_base,
                    startup.flatpak,
                ),
            )
            &&& logging.after(ReportView::Done).stage == Stage::Queueing
        }),
{
}

/// A Windows program is started in these steps: Wine is asked for its version; if
/// that succeeds, the plugin is described as one that another program runs, its
/// log is opened, and it is queued.
pub proof fn law_steps_of_a_windows_program(startup: StartupView)
    requires
        startup.stage == Stage::Created,
        startup.launch == Launch::Wine,
    ensures
        ({
            let asking = startup.after(ReportView::Start);
            let describing = asking.after(ReportView::Exited(Some(true)));
            let logging = describing.after(ReportView::Done);
            &&& startup.next_step(ReportView::Start) is QueryVersion
            &&& startup.next_step(ReportView::Start)->QueryVersion_0 == PluginChildType::Wine
            &&& launch::version_query(PluginChildType::Wine, startup.flatpak) == Some(
                startup.next_step(ReportView::Start)->QueryVersion_1,
            )
            &&& asking.next_step(ReportView::Exited(Some(true))) is Describe
            &&& asking.next_step(ReportView::Exited(Some(true)))->version == startup.version
            &&& asking.next_step(ReportView::Exited(Some(true)))->wine
            &&& describing.next_step(ReportView::Done) == StepView::OpenLog(
                startup.plugin + ".log"@,
            )
            &&& logging.next_step(ReportView::Done) == StepView::Queue(
                PluginChildType::Wine,
                launch::start(
                    PluginChildType::Wine,
                    startup.code.path,
                    startup.plugin,
                    startup.port_base,
                    startup.flatpak,
                ),
            )
            &&& logging.after(ReportView::Done).stage == Stage::Queueing
        }),
{
}

/// Whoever is described to is told the version of the plugin, and whether another
/// program runs it: Node.js or Wine do, and a page or a program for this operating
/// system needs none.
pub proof fn law_description_says_who_runs_the_plugin(startup: StartupView, report: ReportView)
    requires
        startup.next_step(report) is Describe,
    ensures
        startup.next_step(report)->version == startup.version,
        startup.launch == Launch::Node ==> startup.next_step(report)->wine,
        startup.launch == Launch::Wine ==> startup.next_step(report)->wine,
        startup.launch == Launch::Webview ==> !startup.next_step(report)->wine,
        startup.launch == Launch::Native ==> !startup.next_step(report)->wine,
{
}

/// A plugin that needs Node.js is refused if Node.js cannot be run, or answers with
/// a version before `v20.0.0`; one that needs Wine if Wine cannot be run or does not
/// succeed. The refusal names the program that is needed.
pub proof fn law_missing_programs_are_named(startup: StartupView, answer: ReportView)
    requires
        startup.stage == Stage::QueryingVersion,
        startup.launch == Launch::Node || startup.launch == Launch::Wine,
    ensures
        startup.launch == Launch::Node && (answer == ReportView::Printed(None) || answer is Failed
            || (answer matches ReportView::Printed(Some(bytes)) && text::comes_before(
            text::trimmed(vstd::utf8::decode_utf8(bytes)),
            "v20.0.0"@,
        ))) ==> startup.next_step(answer) == StepView::Fail(PluginError::NodeRequired),
        startup.launch == Launch::Wine && (answer == ReportView::Exited(None) || answer
            == ReportView::Exited(Some(false)) || answer is Failed) ==> startup.next_step(answer)
            == StepView::Fail(PluginError::WineRequired),
        startup.next_step(answer) is Fail ==> startup.after(answer).stage == Stage::Stopped,
{
}

/// A page is started in these steps: it is found, and a window is opened for it;
/// if debugging is asked for, the window is shown; the plugin is described, not as
/// one that another program runs; the description is written, and the script that
/// connects with it is run; and the window is recorded.
pub proof fn law_steps_of_a_page(
    startup: StartupView,
    page: Seq<char>,
    info: Seq<char>,
)
    requires
        startup.stage == Stage::Created,
        startup.launch == Launch::Webview,
    ensures
        ({
            let finding = startup.after(ReportView::Start);
            let opening = finding.after(ReportView::Text(page));
            let looking = opening.after(ReportView::Done);
            let showing = looking.after(ReportView::Marker(true));
            let describing = looking.after(ReportView::Marker(false));
            let encoding = describing.after(ReportView::Done);
            let connecting = encoding.after(ReportView::Text(info));
            let describe = StepView::Describe { version: startup.version, wine: false };
            &&& startup.next_step(ReportView::Start) == StepView::FindPage(startup.code.path)
            &&& finding.next_step(ReportView::Text(page)) == StepView::OpenWindow(
                launch::plugin_window(startup.plugin, startup.title, page, startup.port_base),
            )
            &&& opening.next_step(ReportView::Done) is LookForMarker
            &&& looking.next_step(ReportView::Marker(true)) is ShowWindow
            &&& showing.next_step(ReportView::Done) == describe
            &&& showing.after(ReportView::Done) == describing
            &&& looking.next_step(ReportView::Marker(false)) == describe
            &&& describing.next_step(ReportView::Done) is EncodeDescription
            &&& encoding.next_step(ReportView::Text(info)) == StepView::RunScript(
                launch::connection_script(startup.port_base, startup.plugin, info),
            )
            &&& connecting.next_step(ReportView::Done) is RecordWindow
            &&& connecting.after(ReportView::Done).stage == Stage::RecordingWindow
        }),
{
}

} // verus!
