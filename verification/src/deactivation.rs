//! The steps in which the devices of a plugin go before it is stopped.
//!
//! A [`Deactivation`] says what to do next, and is told how it went, until the
//! instance of the plugin can be taken out, which
//! [`deactivate_plugin`](crate::instances::deactivate_plugin) does.

use crate::devices;
use crate::registry::Registry;
use crate::text;
use vstd::prelude::*;

verus! {

/// What is being done to deactivate a plugin.
#[derive(Clone, Copy, Debug, PartialEq, Eq, Structural)]
pub enum DeactivationStage {
    ListingDevices,
    Deregistering,
    Refreshing,
    StoppingMonitor,
    TakingInstance,
    Stopped,
}

/// What is to be done next.
#[derive(Debug, PartialEq, Eq)]
pub enum DeactivationStep {
    /// List the identifiers of all devices.
    ListDevices,
    /// Deregister the device with this identifier.
    Deregister(String),
    /// Show the devices that are left.
    Refresh,
    /// Stop watching for applications.
    StopMonitor,
    /// Take out the instance of the plugin and stop it.
    TakeInstance,
    /// What was to be done could not be done.
    Abort,
}

pub enum DeactivationStepView {
    ListDevices,
    Deregister(Seq<char>),
    Refresh,
    StopMonitor,
    TakeInstance,
    Abort,
}

impl View for DeactivationStep {
    type V = DeactivationStepView;

    open spec fn view(&self) -> DeactivationStepView {
        match self {
            DeactivationStep::ListDevices => DeactivationStepView::ListDevices,
            DeactivationStep::Deregister(device) => DeactivationStepView::Deregister(device@),
            DeactivationStep::Refresh => DeactivationStepView::Refresh,
            DeactivationStep::StopMonitor => DeactivationStepView::StopMonitor,
            DeactivationStep::TakeInstance => DeactivationStepView::TakeInstance,
            DeactivationStep::Abort => DeactivationStepView::Abort,
        }
    }
}

/// How the last step went.
#[derive(Debug, PartialEq, Eq)]
pub enum DeactivationReport {
    Done,
    Failed,
    /// The identifiers of all devices.
    Devices(Vec<String>),
}

pub enum DeactivationReportView {
    Done,
    Failed,
    Devices(Seq<Seq<char>>),
}

impl View for DeactivationReport {
    type V = DeactivationReportView;

    open spec fn view(&self) -> DeactivationReportView {
        match self {
            DeactivationReport::Done => DeactivationReportView::Done,
            DeactivationReport::Failed => DeactivationReportView::Failed,
            DeactivationReport::Devices(devices) => DeactivationReportView::Devices(
                text::text_views(devices@),
            ),
        }
    }
}

impl DeactivationReportView {
    /// Whether each device identifier has a character boundary after its first
    /// two bytes, which are its namespace.
    pub open spec fn has_namespaces(self) -> bool {
        self matches DeactivationReportView::Devices(devices) ==> forall|i: int|
            0 <= i < devices.len() ==> vstd::utf8::is_char_boundary(
                vstd::utf8::encode_utf8(#[trigger] devices[i]),
                2,
            )
    }
}

/// A plugin that is being deactivated.
#[derive(Debug, PartialEq, Eq)]
pub struct Deactivation {
    namespace: Option<String>,
    /// The devices that are left to deregister, the next one last.
    pending: Vec<String>,
    stage: DeactivationStage,
}

#[verifier::ext_equal]
pub struct DeactivationView {
    /// The namespace that was taken from the plugin.
    pub namespace: Option<Seq<char>>,
    /// The devices that are left to deregister, the next one first.
    pub pending: Seq<Seq<char>>,
    pub stage: DeactivationStage,
}

impl View for Deactivation {
    type V = DeactivationView;

    closed spec fn view(&self) -> DeactivationView {
        DeactivationView {
            namespace: text::optional_text(self.namespace),
            pending: text::text_views(self.pending@).reverse(),
            stage: self.stage,
        }
    }
}

impl DeactivationView {
    /// The state in which `pending` are left to deregister.
    pub open spec fn with_pending(self, pending: Seq<Seq<char>>) -> DeactivationView {
        DeactivationView {
            namespace: self.namespace,
            pending,
            stage: if pending.len() > 0 {
                DeactivationStage::Deregistering
            } else {
                DeactivationStage::Refreshing
            },
        }
    }

    /// The state that `report` leads to. A device that cannot be deregistered
    /// stops the deactivation, and so does a report that the stage does not wait
    /// for. That the devices cannot be shown, or watching not be stopped, does not.
    pub open spec fn after(self, report: DeactivationReportView) -> DeactivationView {
        match (self.stage, report) {
            (DeactivationStage::ListingDevices, DeactivationReportView::Devices(devices)) =>
                self.with_pending(
                devices.filter(
                    |device: Seq<char>| devices::in_namespace(device, self.namespace->0),
                ),
            ),
            (DeactivationStage::Deregistering, DeactivationReportView::Done) => self.with_pending(
                self.pending.drop_first(),
            ),
            (DeactivationStage::Refreshing, DeactivationReportView::Done) => DeactivationView {
                stage: DeactivationStage::StoppingMonitor,
                ..self
            },
            (DeactivationStage::Refreshing, DeactivationReportView::Failed) => DeactivationView {
                stage: DeactivationStage::StoppingMonitor,
                ..self
            },
            (DeactivationStage::StoppingMonitor, DeactivationReportView::Done) => DeactivationView {
                stage: DeactivationStage::TakingInstance,
                ..self
            },
            (DeactivationStage::StoppingMonitor, DeactivationReportView::Failed) =>
                DeactivationView { stage: DeactivationStage::TakingInstance, ..self },
            _ => DeactivationView { stage: DeactivationStage::Stopped, ..self },
        }
    }

    /// What the stage is for.
    pub open spec fn step(self) -> DeactivationStepView {
        match self.stage {
            DeactivationStage::ListingDevices => DeactivationStepView::ListDevices,
            DeactivationStage::Deregistering => DeactivationStepView::Deregister(self.pending[0]),
            DeactivationStage::Refreshing => DeactivationStepView::Refresh,
            DeactivationStage::StoppingMonitor => DeactivationStepView::StopMonitor,
            DeactivationStage::TakingInstance => DeactivationStepView::TakeInstance,
            DeactivationStage::Stopped => DeactivationStepView::Abort,
        }
    }
}

impl Deactivation {
    /// Devices are listed only for a namespace, and deregistered only while some
    /// are left.
    #[verifier::type_invariant]
    spec fn well_formed(self) -> bool {
        &&& self.stage == DeactivationStage::ListingDevices ==> self.namespace is Some
        &&& self.stage == DeactivationStage::Deregistering ==> self.pending@.len() > 0
    }

    /// What the stage is for.
    fn step(&self) -> (step: DeactivationStep)
        ensures
            step@ == self@.step(),
    {
        proof {
            use_type_invariant(self);
        }
        match self.stage {
            DeactivationStage::ListingDevices => DeactivationStep::ListDevices,
            DeactivationStage::Deregistering => DeactivationStep::Deregister(
                self.pending[self.pending.len() - 1].clone(),
            ),
            DeactivationStage::Refreshing => DeactivationStep::Refresh,
            DeactivationStage::StoppingMonitor => DeactivationStep::StopMonitor,
            DeactivationStage::TakingInstance => DeactivationStep::TakeInstance,
            DeactivationStage::Stopped => DeactivationStep::Abort,
        }
    }

    /// Begins to deactivate `plugin`: takes one namespace from it, if it has
    /// one, and says what to do first.
    pub fn begin(namespaces: &mut Registry<String>, plugin: &str) -> (result: (
        Deactivation,
        DeactivationStep,
    ))
        ensures
            result.1@ == result.0@.step(),
            result.0@.pending.len() == 0,
            match result.0@.namespace {
                Some(namespace) => {
                    &&& old(namespaces)@.contains_key(namespace)
                    &&& old(namespaces)@[namespace]@ == plugin@
                    &&& final(namespaces)@ == old(namespaces)@.remove(namespace)
                    &&& result.0@.stage == DeactivationStage::ListingDevices
                },
                None => {
                    &&& forall|namespace: Seq<char>| #[trigger]
                        old(namespaces)@.contains_key(namespace) ==> old(namespaces)@[namespace]@
                            != plugin@
                    &&& final(namespaces)@ == old(namespaces)@
                    &&& result.0@.stage == DeactivationStage::StoppingMonitor
                },
            },
    {
        let namespace = devices::release_namespace(namespaces, plugin);
        let stage = match &namespace {
            Some(_) => DeactivationStage::ListingDevices,
            None => DeactivationStage::StoppingMonitor,
        };
        let deactivation = Deactivation { namespace, pending: Vec::new(), stage };
        let step = deactivation.step();
        (deactivation, step)
    }

    /// Reports how the last step went, and says what to do next.
    pub fn advance(self, report: DeactivationReport) -> (result: (Deactivation, DeactivationStep))
        requires
            report@.has_namespaces(),
        ensures
            result.0@ == self@.after(report@),
            result.1@ == result.0@.step(),
    {
        proof {
            use_type_invariant(&self);
        }
        let ghost before = self@;
        let ghost reported = report@;
        let Deactivation { namespace, pending, stage } = self;
        let mut pending = pending;
        let stage = match (stage, report) {
            (DeactivationStage::ListingDevices, DeactivationReport::Devices(listed)) => {
                let ghost all = text::text_views(listed@);
                assert forall|i: int| 0 <= i < listed@.len() implies vstd::utf8::is_char_boundary(
                    vstd::utf8::encode_utf8(#[trigger] listed@[i]@),
                    2,
                ) by {
                    assert(all[i] == listed@[i]@);
                }
                let mut wanted = match &namespace {
                    Some(namespace) => devices::devices_in_namespace(&listed, namespace.as_str()),
                    None => Vec::new(),
                };
                pending = Vec::new();
                let ghost matching = text::text_views(wanted@);
                while wanted.len() > 0
                    invariant
                        text::text_views(wanted@) + text::text_views(pending@).reverse()
                            == matching,
                    decreases wanted.len(),
                {
                    let ghost left = wanted@;
                    let ghost taken = pending@;
                    if let Some(device) = wanted.pop() {
                        pending.push(device);
                        assert(text::text_views(left) =~= text::text_views(wanted@).push(
                            device@,
                        ));
                        assert(text::text_views(pending@).reverse() =~= seq![device@]
                            + text::text_views(taken).reverse());
                        assert(text::text_views(wanted@)
                            + text::text_views(pending@).reverse() =~= text::text_views(left)
                            + text::text_views(taken).reverse());
                    }
                }
                assert(text::text_views(pending@).reverse() =~= matching);
                if pending.len() > 0 {
                    DeactivationStage::Deregistering
                } else {
                    DeactivationStage::Refreshing
                }
            },
            (DeactivationStage::Deregistering, DeactivationReport::Done) => {
                let ghost left = pending@;
                let _ = pending.pop();
                assert(text::text_views(pending@).reverse() =~= text::text_views(
                    left,
                ).reverse().drop_first());
                if pending.len() > 0 {
                    DeactivationStage::Deregistering
                } else {
                    DeactivationStage::Refreshing
                }
            },
            (DeactivationStage::Refreshing, DeactivationReport::Done) =>
                DeactivationStage::StoppingMonitor,
            (DeactivationStage::Refreshing, DeactivationReport::Failed) =>
                DeactivationStage::StoppingMonitor,
            (DeactivationStage::StoppingMonitor, DeactivationReport::Done) =>
                DeactivationStage::TakingInstance,
            (DeactivationStage::StoppingMonitor, DeactivationReport::Failed) =>
                DeactivationStage::TakingInstance,
            _ => DeactivationStage::Stopped,
        };
        let deactivation = Deactivation { namespace, pending, stage };
        assert(deactivation@ =~= before.after(reported));
        let step = deactivation.step();
        (deactivation, step)
    }
}

/// The state after `count` reports of success.
pub open spec fn after_successes(start: DeactivationView, count: nat) -> DeactivationView
    decreases count,
{
    if count == 0 {
        start
    } else {
        after_successes(start, (count - 1) as nat).after(DeactivationReportView::Done)
    }
}

/// All devices in the namespace of the plugin are deregistered, one after the
/// other in the order in which they were listed, and only then is anything else
/// done.
pub proof fn law_devices_of_plugin_are_deregistered(
    start: DeactivationView,
    devices: Seq<Seq<char>>,
    count: nat,
)
    requires
        start.stage == DeactivationStage::ListingDevices,
        count <= devices.filter(
            |device: Seq<char>| devices::in_namespace(device, start.namespace->0),
        ).len(),
    ensures
        ({
            let listed = start.after(DeactivationReportView::Devices(devices));
            let matching = devices.filter(
                |device: Seq<char>| devices::in_namespace(device, start.namespace->0),
            );
            let reached = after_successes(listed, count);
            &&& reached.pending == matching.skip(count as int)
            &&& reached.step() == if count < matching.len() {
                DeactivationStepView::Deregister(matching[count as int])
            } else {
                DeactivationStepView::Refresh
            }
        }),
    decreases count,
{
    let listed = start.after(DeactivationReportView::Devices(devices));
    let matching = devices.filter(
        |device: Seq<char>| devices::in_namespace(device, start.namespace->0),
    );
    if count == 0 {
        assert(matching.skip(0) =~= matching);
    } else {
        law_devices_of_plugin_are_deregistered(start, devices, (count - 1) as nat);
        assert(matching.skip(count - 1).drop_first() =~= matching.skip(count as int));
    }
}

/// Where a device cannot be deregistered, the instance of the plugin is not
/// asked for.
pub proof fn law_failure_keeps_the_instance(
    start: DeactivationView,
    report: DeactivationReportView,
)
    requires
        start.stage == DeactivationStage::Deregistering,
        report is Failed,
    ensures
        start.after(report).step() == DeactivationStepView::Abort,
        start.after(report).after(DeactivationReportView::Done).step()
            == DeactivationStepView::Abort,
{
}

/// Once the devices are gone, the devices that are left are shown, watching for
/// applications ends, and the instance of the plugin is asked for, whether or not
/// the first two could be done.
pub proof fn law_deactivation_ends_with_the_instance(
    start: DeactivationView,
    shown: DeactivationReportView,
    ended: DeactivationReportView,
)
    requires
        start.stage == DeactivationStage::Refreshing,
        shown is Done || shown is Failed,
        ended is Done || ended is Failed,
    ensures
        start.step() == DeactivationStepView::Refresh,
        start.after(shown).step() == DeactivationStepView::StopMonitor,
        start.after(shown).after(ended).step() == DeactivationStepView::TakeInstance,
{
}

/// Each step is shown as what it is, with the device that it is about.
pub proof fn law_deactivation_steps_are_shown(step: DeactivationStep)
    ensures
        step is ListDevices <==> step@ is ListDevices,
        step is Deregister <==> step@ is Deregister,
        step matches DeactivationStep::Deregister(device) ==> step@
            == DeactivationStepView::Deregister(device@),
        step is Refresh <==> step@ is Refresh,
        step is StopMonitor <==> step@ is StopMonitor,
        step is TakeInstance <==> step@ is TakeInstance,
        step is Abort <==> step@ is Abort,
{
}

/// Each report is shown as what it is, with its devices in order.
pub proof fn law_deactivation_reports_are_shown(report: DeactivationReport)
    ensures
        report is Done <==> report@ is Done,
        report is Failed <==> report@ is Failed,
        report is Devices <==> report@ is Devices,
        report matches DeactivationReport::Devices(devices) ==> {
            &&& report@->Devices_0.len() == devices@.len()
            &&& forall|i: int|
                0 <= i < devices@.len() ==> #[trigger] report@->Devices_0[i] == devices@[i]@
        },
{
}

/// A report can be made unless it lists a device whose identifier has no character
/// boundary after its first two bytes.
pub proof fn law_devices_need_a_boundary_after_two_bytes(report: DeactivationReportView)
    ensures
        report is Done || report is Failed ==> report.has_namespaces(),
        report matches DeactivationReportView::Devices(devices) ==> {
            report.has_namespaces() <==> forall|i: int|
                0 <= i < devices.len() ==> vstd::utf8::is_char_boundary(
                    vstd::utf8::encode_utf8(#[trigger] devices[i]),
                    2,
                )
        },
{
}

/// For a plugin with a namespace the devices are listed first, and for one without
/// watching for applications ends at once, after which its instance is asked for.
/// The namespace stays known throughout.
pub proof fn law_deactivation_begins_with_the_devices(
    start: DeactivationView,
    report: DeactivationReportView,
)
    ensures
        start.stage == DeactivationStage::ListingDevices ==> start.step() is ListDevices,
        start.stage == DeactivationStage::StoppingMonitor ==> start.step() is StopMonitor,
        start.stage == DeactivationStage::StoppingMonitor && report is Done ==> start.after(
            report,
        ).step() is TakeInstance,
        start.after(report).namespace == start.namespace,
{
}

/// The instance of a plugin is asked for only after watching for applications was
/// ended, and a device is asked to be deregistered only if it was listed and is in
/// the namespace of the plugin.
pub proof fn law_nothing_is_done_out_of_turn(
    start: DeactivationView,
    report: DeactivationReportView,
)
    requires
        start.stage == DeactivationStage::Deregistering ==> start.pending.len() > 0,
    ensures
        start.after(report).step() is TakeInstance ==> start.stage
            == DeactivationStage::StoppingMonitor,
        start.after(report).step() is StopMonitor ==> start.stage == DeactivationStage::Refreshing,
        start.after(report).step() matches DeactivationStepView::Deregister(device) ==> {
            ||| start.stage == DeactivationStage::Deregistering && start.pending.contains(device)
            ||| start.stage == DeactivationStage::ListingDevices && report is Devices
                && report->Devices_0.contains(device) && devices::in_namespace(
                device,
                start.namespace->0,
            )
        },
{
    if start.stage == DeactivationStage::ListingDevices && report is Devices {
        broadcast use vstd::seq_lib::group_filter_ensures;

        let listed = report->Devices_0;
        let wanted = |device: Seq<char>| devices::in_namespace(device, start.namespace->0);
        let kept = listed.filter(wanted);
        if kept.len() > 0 {
            assert(kept.contains(kept[0]));
            listed.lemma_filter_contains_rev(wanted, kept[0]);
            assert(wanted(kept[0]));
        }
    } else if start.stage == DeactivationStage::Deregistering && start.pending.len() > 1 {
        assert(start.pending.drop_first()[0] == start.pending[1]);
    }
}

} // verus!
