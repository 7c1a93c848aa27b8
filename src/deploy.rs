use vstd::prelude::*;

use crate::control::AsyncMsg;
use crate::manifest::{ManifestImage, ReleaseManifest};
use crate::text::str_eq;

verus! {

/// One step of the deploy sequence, in the order the steps must run.
#[derive(Debug, Clone, Copy, PartialEq, Eq, Structural)]
pub enum DeployStep {
    Namespace,
    Secrets,
    ConfigMap,
    Pvcs,
    Rbac,
    Nats,
    Qdrant,
    Brain,
    Worker,
    Gateway,
    Ui,
    NetworkPolicies,
    Voice,
    SysAdmin,
    Toolbox,
    Browser,
}

/// The steps every install runs: namespace first, then secrets and config,
/// storage and access control, the core services, and network policy.
pub open spec fn base_steps() -> Seq<DeployStep> {
    seq![
        DeployStep::Namespace,
        DeployStep::Secrets,
        DeployStep::ConfigMap,
        DeployStep::Pvcs,
        DeployStep::Rbac,
        DeployStep::Nats,
        DeployStep::Qdrant,
        DeployStep::Brain,
        DeployStep::Worker,
        DeployStep::Gateway,
        DeployStep::Ui,
        DeployStep::NetworkPolicies,
    ]
}

/// The extension step that an optional image's component brings, if any.
pub open spec fn extension_step(component: Seq<char>) -> Option<DeployStep> {
    if component == "voice"@ {
        Some(DeployStep::Voice)
    } else if component == "sysadmin"@ {
        Some(DeployStep::SysAdmin)
    } else if component == "ext-toolbox"@ {
        Some(DeployStep::Toolbox)
    } else if component == "ext-browser"@ {
        Some(DeployStep::Browser)
    } else {
        None
    }
}

/// The extension steps of the optional images, in manifest order.
pub open spec fn extension_steps(images: Seq<ManifestImage>) -> Seq<DeployStep>
    decreases images.len(),
{
    if images.len() == 0 {
        Seq::empty()
    } else {
        let rest = extension_steps(images.drop_last());
        if images.last().required {
            rest
        } else {
            match extension_step(images.last().component@) {
                Some(s) => rest.push(s),
                None => rest,
            }
        }
    }
}

/// The full deploy sequence for a manifest.
pub open spec fn planned_steps(m: ReleaseManifest, skip_extensions: bool) -> Seq<DeployStep> {
    if skip_extensions {
        base_steps()
    } else {
        base_steps() + extension_steps(m.images@)
    }
}

impl DeployStep {
    /// The label of the step in the status table.
    pub open spec fn spec_label(self) -> Seq<char> {
        match self {
            DeployStep::Namespace => "Namespace"@,
            DeployStep::Secrets => "Secrets"@,
            DeployStep::ConfigMap => "ConfigMap"@,
            DeployStep::Pvcs => "PVCs"@,
            DeployStep::Rbac => "RBAC"@,
            DeployStep::Nats => "NATS"@,
            DeployStep::Qdrant => "Qdrant"@,
            DeployStep::Brain => "Brain"@,
            DeployStep::Worker => "Worker"@,
            DeployStep::Gateway => "Gateway"@,
            DeployStep::Ui => "UI"@,
            DeployStep::NetworkPolicies => "Network Policies"@,
            DeployStep::Voice => "Voice"@,
            DeployStep::SysAdmin => "SysAdmin"@,
            DeployStep::Toolbox => "Toolbox"@,
            DeployStep::Browser => "Browser"@,
        }
    }

    pub fn label(&self) -> (r: &'static str)
        ensures
            r@ == self.spec_label(),
    {
        match self {
            DeployStep::Namespace => "Namespace",
            DeployStep::Secrets => "Secrets",
            DeployStep::ConfigMap => "ConfigMap",
            DeployStep::Pvcs => "PVCs",
            DeployStep::Rbac => "RBAC",
            DeployStep::Nats => "NATS",
            DeployStep::Qdrant => "Qdrant",
            DeployStep::Brain => "Brain",
            DeployStep::Worker => "Worker",
            DeployStep::Gateway => "Gateway",
            DeployStep::Ui => "UI",
            DeployStep::NetworkPolicies => "Network Policies",
            DeployStep::Voice => "Voice",
            DeployStep::SysAdmin => "SysAdmin",
            DeployStep::Toolbox => "Toolbox",
            DeployStep::Browser => "Browser",
        }
    }
}

fn extension_step_of(component: &String) -> (r: Option<DeployStep>)
    ensures
        r == extension_step(component@),
{
    if str_eq(component.as_str(), "voice") {
        Some(DeployStep::Voice)
    } else if str_eq(component.as_str(), "sysadmin") {
        Some(DeployStep::SysAdmin)
    } else if str_eq(component.as_str(), "ext-toolbox") {
        Some(DeployStep::Toolbox)
    } else if str_eq(component.as_str(), "ext-browser") {
        Some(DeployStep::Browser)
    } else {
        None
    }
}

/// The deploy sequence derived from the manifest: the fixed steps, then one step
/// per optional extension image unless extensions are skipped.
pub fn deploy_steps(manifest: &ReleaseManifest, skip_extensions: bool) -> (r: Vec<DeployStep>)
    ensures
        r@ == planned_steps(*manifest, skip_extensions),
        r@.len() >= 12,
{
    let mut steps: Vec<DeployStep> = vec![
        DeployStep::Namespace,
        DeployStep::Secrets,
        DeployStep::ConfigMap,
        DeployStep::Pvcs,
        DeployStep::Rbac,
        DeployStep::Nats,
        DeployStep::Qdrant,
        DeployStep::Brain,
        DeployStep::Worker,
        DeployStep::Gateway,
        DeployStep::Ui,
        DeployStep::NetworkPolicies,
    ];
    assert(steps@ =~= base_steps());
    if skip_extensions {
        return steps;
    }
    let ghost imgs = manifest.images@;
    let mut i: usize = 0;
    while i < manifest.images.len()
        invariant
            imgs == manifest.images@,
            i <= imgs.len(),
            steps@ == base_steps() + extension_steps(imgs.take(i as int)),
        decreases imgs.len() - i,
    {
        assert(imgs.take(i + 1).drop_last() =~= imgs.take(i as int));
        let img = &manifest.images[i];
        if !img.required {
            if let Some(step) = extension_step_of(&img.component) {
                steps.push(step);
            }
        }
        i += 1;
        assert(steps@ =~= base_steps() + extension_steps(imgs.take(i as int)));
    }
    assert(imgs.take(i as int) =~= imgs);
    steps
}

/// Runs the deploy steps one at a time, reporting each result by its index and
/// signalling completion once after the last one.
pub struct DeploySequencer {
    pub steps: Vec<DeployStep>,
    pub reported: usize,
    pub finished: bool,
}

impl DeploySequencer {
    /// Steps reported so far never exceed the plan; the sequence is finished
    /// exactly when every step has reported, unless it was cut short.
    pub open spec fn wf(&self) -> bool {
        &&& self.reported <= self.steps@.len()
        &&& self.steps@.len() > 0
        &&& (!self.finished ==> self.reported < self.steps@.len())
    }

    pub fn new(steps: Vec<DeployStep>) -> (r: DeploySequencer)
        requires
            steps@.len() > 0,
        ensures
            r.wf(),
            r.steps@ == steps@,
            r.reported == 0,
            !r.finished,
    {
        DeploySequencer { steps, reported: 0, finished: false }
    }

    /// The step to run next, none once the sequence is finished.
    pub fn current(&self) -> (r: Option<DeployStep>)
        requires
            self.wf(),
        ensures
            self.finished ==> r.is_none(),
            !self.finished ==> r == Some(self.steps@[self.reported as int]),
    {
        if self.finished {
            None
        } else {
            Some(self.steps[self.reported])
        }
    }

    /// Records the result of the current step: its report, then the completion
    /// signal when it was the last step.
    pub fn report(&mut self, result: Result<(), String>) -> (msgs: Vec<AsyncMsg>)
        requires
            old(self).wf(),
            !old(self).finished,
        ensures
            final(self).wf(),
            final(self).steps@ == old(self).steps@,
            final(self).reported == old(self).reported + 1,
            final(self).finished == (final(self).reported == final(self).steps@.len()),
            msgs@.len() == if final(self).finished { 2int } else { 1int },
            msgs@[0] == (AsyncMsg::DeployStep { index: old(self).reported, result }),
            final(self).finished ==> msgs@[1] == AsyncMsg::DeployDone,
    {
        let n = self.steps.len();
        let mut msgs: Vec<AsyncMsg> = Vec::new();
        msgs.push(AsyncMsg::DeployStep { index: self.reported, result });
        self.reported = self.reported + 1;
        if self.reported == self.steps.len() {
            self.finished = true;
            msgs.push(AsyncMsg::DeployDone);
        }
        msgs
    }

    /// The cluster could not be reached: one failure for the first pending step,
    /// then the completion signal, without running the rest.
    pub fn connection_failed(&mut self, error: String) -> (msgs: Vec<AsyncMsg>)
        requires
            old(self).wf(),
            !old(self).finished,
        ensures
            final(self).wf(),
            final(self).finished,
            final(self).steps@ == old(self).steps@,
            final(self).reported == old(self).reported + 1,
            msgs@ == seq![
                AsyncMsg::DeployStep { index: old(self).reported, result: Err(error) },
                AsyncMsg::DeployDone,
            ],
    {
        let n = self.steps.len();
        let mut msgs: Vec<AsyncMsg> = Vec::new();
        msgs.push(AsyncMsg::DeployStep { index: self.reported, result: Err(error) });
        msgs.push(AsyncMsg::DeployDone);
        self.reported = self.reported + 1;
        self.finished = true;
        msgs
    }
}

} // verus!
