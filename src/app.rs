use vstd::prelude::*;

use crate::health::PodHealth;
use crate::manifest::ReleaseManifest;

verus! {

/// The stages of an install, in order.
#[derive(Debug, Clone, Copy, PartialEq, Eq, Structural)]
pub enum Phase {
    Preflight,
    Secrets,
    Features,
    Confirm,
    Pull,
    Deploy,
    Health,
    Complete,
}

impl Phase {
    /// Position of the phase in the install order.
    pub open spec fn spec_index(self) -> nat {
        match self {
            Phase::Preflight => 0,
            Phase::Secrets => 1,
            Phase::Features => 2,
            Phase::Confirm => 3,
            Phase::Pull => 4,
            Phase::Deploy => 5,
            Phase::Health => 6,
            Phase::Complete => 7,
        }
    }

    /// The phase that follows this one; none after `Complete`.
    pub open spec fn spec_next(self) -> Option<Phase> {
        match self {
            Phase::Preflight => Some(Phase::Secrets),
            Phase::Secrets => Some(Phase::Features),
            Phase::Features => Some(Phase::Confirm),
            Phase::Confirm => Some(Phase::Pull),
            Phase::Pull => Some(Phase::Deploy),
            Phase::Deploy => Some(Phase::Health),
            Phase::Health => Some(Phase::Complete),
            Phase::Complete => None,
        }
    }

    /// The name shown for the phase.
    pub open spec fn spec_label(self) -> Seq<char> {
        match self {
            Phase::Preflight => "Preflight"@,
            Phase::Secrets => "Secrets"@,
            Phase::Features => "Features"@,
            Phase::Confirm => "Confirm"@,
            Phase::Pull => "Pull Images"@,
            Phase::Deploy => "Deploy"@,
            Phase::Health => "Health Check"@,
            Phase::Complete => "Complete"@,
        }
    }

    pub fn index(&self) -> (r: usize)
        ensures
            r == self.spec_index(),
    {
        match self {
            Phase::Preflight => 0,
            Phase::Secrets => 1,
            Phase::Features => 2,
            Phase::Confirm => 3,
            Phase::Pull => 4,
            Phase::Deploy => 5,
            Phase::Health => 6,
            Phase::Complete => 7,
        }
    }

    pub fn total() -> (r: usize)
        ensures
            r == 8,
    {
        8
    }

    pub fn label(&self) -> (r: &'static str)
        ensures
            r@ == self.spec_label(),
    {
        match self {
            Phase::Preflight => "Preflight",
            Phase::Secrets => "Secrets",
            Phase::Features => "Features",
            Phase::Confirm => "Confirm",
            Phase::Pull => "Pull Images",
            Phase::Deploy => "Deploy",
            Phase::Health => "Health Check",
            Phase::Complete => "Complete",
        }
    }

    pub fn next(&self) -> (r: Option<Phase>)
        ensures
            r == self.spec_next(),
    {
        match self {
            Phase::Preflight => Some(Phase::Secrets),
            Phase::Secrets => Some(Phase::Features),
            Phase::Features => Some(Phase::Confirm),
            Phase::Confirm => Some(Phase::Pull),
            Phase::Pull => Some(Phase::Deploy),
            Phase::Deploy => Some(Phase::Health),
            Phase::Health => Some(Phase::Complete),
            Phase::Complete => None,
        }
    }
}

/// Every phase but `Complete` is followed by the phase one place later in the
/// order; `Complete` is followed by none.
pub proof fn lemma_next_is_one_step(p: Phase)
    ensures
        p != Phase::Complete ==> p.spec_next().is_some(),
        p != Phase::Complete ==> p.spec_next().unwrap().spec_index() == p.spec_index() + 1,
        p == Phase::Complete ==> p.spec_next().is_none(),
        p.spec_index() < 8,
{
}

/// Status of an individual item (image pull, resource creation, pod health)
#[derive(Debug, Clone, PartialEq, Eq)]
pub enum ItemStatus {
    Pending,
    InProgress,
    Done,
    Failed(String),
    Skipped,
}

/// Collected secrets and configuration
#[derive(Debug, Clone, Default)]
pub struct InstallConfig {
    pub oauth_token: Option<String>,
    pub api_key: Option<String>,
    pub voyage_api_key: Option<String>,
    pub agent_name: String,
    pub auth_token: String,
    pub features: Vec<FeatureSelection>,
    pub namespace: String,
}

/// An optional feature as the operator sees it, with the secrets captured for it.
#[derive(Debug, Clone)]
pub struct FeatureSelection {
    pub id: String,
    pub name: String,
    pub enabled: bool,
    pub secrets: Vec<(String, Option<String>)>,
}

/// A single secret prompt in the Secrets phase
#[derive(Debug, Clone)]
pub struct SecretPrompt {
    pub key: String,
    pub description: String,
    pub required: bool,
    pub is_secret: bool,
    pub is_feature: bool,
    pub value: Option<String>,
}

/// Top-level installer state, owned by the control loop.
pub struct App {
    pub phase: Phase,
    pub config: InstallConfig,
    pub should_quit: bool,
    pub cluster_name: String,
    pub preflight_checks: Vec<(String, ItemStatus)>,
    pub secret_prompts: Vec<SecretPrompt>,
    pub current_secret_index: usize,
    pub secret_input: String,
    pub feature_cursor: usize,
    pub collecting_feature_secrets: bool,
    pub confirm_selected: usize,
    pub pull_statuses: Vec<(String, ItemStatus)>,
    pub pull_progress: (usize, usize),
    pub deploy_statuses: Vec<(String, ItemStatus)>,
    pub deploy_progress: (usize, usize),
    pub pod_statuses: Vec<PodHealth>,
    pub health_done: bool,
    pub health_failed: bool,
    pub manifest_version: String,
    pub manifest: Option<ReleaseManifest>,
}

impl App {
    pub fn new(namespace: String) -> (r: App)
        ensures
            r.phase == Phase::Preflight,
            r.config.namespace@ == namespace@,
            r.config.agent_name@ == "Baker"@,
            r.config.auth_token@.len() == 0,
            r.config.oauth_token.is_none(),
            r.config.api_key.is_none(),
            r.config.voyage_api_key.is_none(),
            r.config.features@.len() == 0,
            !r.should_quit,
            r.cluster_name@.len() == 0,
            r.preflight_checks@.len() == 0,
            r.secret_prompts@.len() == 0,
            r.current_secret_index == 0,
            r.secret_input@.len() == 0,
            r.feature_cursor == 0,
            !r.collecting_feature_secrets,
            r.confirm_selected == 0,
            r.pull_statuses@.len() == 0,
            r.pull_progress == (0usize, 0usize),
            r.deploy_statuses@.len() == 0,
            r.deploy_progress == (0usize, 0usize),
            r.pod_statuses@.len() == 0,
            !r.health_done,
            !r.health_failed,
            r.manifest_version@.len() == 0,
            r.manifest.is_none(),
    {
        App {
            phase: Phase::Preflight,
            config: InstallConfig {
                oauth_token: None,
                api_key: None,
                voyage_api_key: None,
                agent_name: String::from_str("Baker"),
                auth_token: String::new(),
                features: Vec::new(),
                namespace,
            },
            should_quit: false,
            cluster_name: String::new(),
            preflight_checks: Vec::new(),
            secret_prompts: Vec::new(),
            current_secret_index: 0,
            secret_input: String::new(),
            feature_cursor: 0,
            collecting_feature_secrets: false,
            confirm_selected: 0,
            pull_statuses: Vec::new(),
            pull_progress: (0, 0),
            deploy_statuses: Vec::new(),
            deploy_progress: (0, 0),
            pod_statuses: Vec::new(),
            health_done: false,
            health_failed: false,
            manifest_version: String::new(),
            manifest: None,
        }
    }

    /// Moves to the next phase; false, with nothing changed, at `Complete`.
    pub fn advance(&mut self) -> (r: bool)
        ensures
            r == (old(self).phase != Phase::Complete),
            *final(self) == (App {
                phase: match old(self).phase.spec_next() {
                    Some(p) => p,
                    None => old(self).phase,
                },
                ..*old(self)
            }),
    {
        if let Some(next) = self.phase.next() {
            self.phase = next;
            true
        } else {
            false
        }
    }

    /// Only valid from Confirm: back to Secrets, with the secret cursor and input reset.
    pub fn back_to_secrets(&mut self)
        ensures
            old(self).phase == Phase::Confirm ==> final(self).secret_input@.len() == 0,
            old(self).phase == Phase::Confirm ==> *final(self) == (App {
                phase: Phase::Secrets,
                current_secret_index: 0,
                secret_input: final(self).secret_input,
                ..*old(self)
            }),
            old(self).phase != Phase::Confirm ==> *final(self) == *old(self),
    {
        if self.phase == Phase::Confirm {
            self.phase = Phase::Secrets;
            self.current_secret_index = 0;
            self.secret_input = String::new();
        }
    }
}

} // verus!
