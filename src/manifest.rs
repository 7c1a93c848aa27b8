use vstd::prelude::*;

use crate::text::join2;

verus! {

/// A release descriptor: what to pull, which secrets to ask for, which features to offer.
#[derive(Debug, Clone)]
pub struct ReleaseManifest {
    pub schema_version: u32,
    pub version: String,
    pub date: String,
    pub min_sysadmin_version: String,
    pub release_notes: String,
    pub images: Vec<ManifestImage>,
    pub required_secrets: Vec<ManifestSecret>,
    pub optional_features: Vec<ManifestFeature>,
    pub defaults: ManifestDefaults,
    pub checksums: std::collections::HashMap<String, String>,
}

/// One container image of a release.
#[derive(Debug, Clone)]
pub struct ManifestImage {
    pub component: String,
    pub image: String,
    pub version: String,
    pub digest: String,
    pub required: bool,
}

/// A secret that the base install asks for.
#[derive(Debug, Clone)]
pub struct ManifestSecret {
    pub key: String,
    pub description: String,
    pub required: bool,
    pub input_type: String,
    pub target_secrets: Vec<String>,
}

/// An optional feature, with the secret keys it needs.
#[derive(Debug, Clone)]
pub struct ManifestFeature {
    pub id: String,
    pub name: String,
    pub description: String,
    pub default_enabled: bool,
    pub secrets: Vec<String>,
}

/// Default settings of a release.
#[derive(Debug, Clone)]
pub struct ManifestDefaults {
    pub agent_name: String,
    pub namespace: String,
    pub resource_profile: String,
}

/// An image entry built from a local component name.
pub open spec fn local_image(img: ManifestImage, name: Seq<char>, required: bool) -> bool {
    &&& img.component@ == name
    &&& img.image@ == "bakerst-"@ + name + ":latest"@
    &&& img.version@ == "latest"@
    &&& img.digest@.len() == 0
    &&& img.required == required
}

/// A secret entry of the default manifest.
pub open spec fn secret_entry(
    s: ManifestSecret,
    key: Seq<char>,
    description: Seq<char>,
    required: bool,
    targets: Seq<Seq<char>>,
) -> bool {
    &&& s.key@ == key
    &&& s.description@ == description
    &&& s.required == required
    &&& s.input_type@ == "secret"@
    &&& s.target_secrets@.map_values(|t: String| t@) == targets
}

/// A feature entry of the default manifest, off by default.
pub open spec fn feature_entry(
    f: ManifestFeature,
    id: Seq<char>,
    name: Seq<char>,
    description: Seq<char>,
    secrets: Seq<Seq<char>>,
) -> bool {
    &&& f.id@ == id
    &&& f.name@ == name
    &&& f.description@ == description
    &&& !f.default_enabled
    &&& f.secrets@.map_values(|t: String| t@) == secrets
}

/// The image entry of a locally built component.
pub fn image(name: &str, required: bool) -> (r: ManifestImage)
    ensures
        local_image(r, name@, required),
{
    ManifestImage {
        component: String::from_str(name),
        image: join2(join2("bakerst-", name).as_str(), ":latest"),
        version: String::from_str("latest"),
        digest: String::new(),
        required,
    }
}

/// Relies on chrono's `Utc::now` and `DateTime::to_rfc3339`: the current time,
/// written in RFC 3339 form.
#[verifier::external_body]
fn now_rfc3339() -> (r: String) {
    chrono::Utc::now().to_rfc3339()
}

fn strings(items: &[&str]) -> (r: Vec<String>)
    ensures
        r@.map_values(|t: String| t@) == items@.map_values(|t: &str| t@),
{
    let mut out: Vec<String> = Vec::new();
    let mut i: usize = 0;
    while i < items.len()
        invariant
            i <= items@.len(),
            out@.len() == i,
            forall|t: int| 0 <= t < i ==> (#[trigger] out@[t])@ == items@[t]@,
        decreases items@.len() - i,
    {
        out.push(String::from_str(items[i]));
        i += 1;
    }
    assert(out@.map_values(|t: String| t@) =~= items@.map_values(|t: &str| t@));
    out
}

fn secret(key: &str, description: &str, required: bool, targets: &[&str]) -> (r: ManifestSecret)
    ensures
        secret_entry(r, key@, description@, required, targets@.map_values(|t: &str| t@)),
{
    ManifestSecret {
        key: String::from_str(key),
        description: String::from_str(description),
        required,
        input_type: String::from_str("secret"),
        target_secrets: strings(targets),
    }
}

fn feature(id: &str, name: &str, description: &str, secrets: &[&str]) -> (r: ManifestFeature)
    ensures
        feature_entry(r, id@, name@, description@, secrets@.map_values(|t: &str| t@)),
{
    ManifestFeature {
        id: String::from_str(id),
        name: String::from_str(name),
        description: String::from_str(description),
        default_enabled: false,
        secrets: strings(secrets),
    }
}

/// Default manifest for when the release cannot be fetched (uses local :latest images).
pub fn default_manifest() -> (r: ReleaseManifest)
    ensures
        r.schema_version == 1,
        r.version@ == "local"@,
        r.min_sysadmin_version@ == "0.0.0"@,
        r.release_notes@ == "Local development deployment"@,
        r.images@.len() == 8,
        local_image(r.images@[0], "brain"@, true),
        local_image(r.images@[1], "worker"@, true),
        local_image(r.images@[2], "ui"@, true),
        local_image(r.images@[3], "gateway"@, true),
        local_image(r.images@[4], "sysadmin"@, false),
        local_image(r.images@[5], "voice"@, false),
        local_image(r.images@[6], "ext-toolbox"@, false),
        local_image(r.images@[7], "ext-browser"@, false),
        r.required_secrets@.len() == 3,
        secret_entry(
            r.required_secrets@[0],
            "ANTHROPIC_OAUTH_TOKEN"@,
            "Anthropic OAuth token"@,
            true,
            seq!["bakerst-brain-secrets"@, "bakerst-worker-secrets"@],
        ),
        secret_entry(
            r.required_secrets@[1],
            "ANTHROPIC_API_KEY"@,
            "Anthropic API key (fallback if no OAuth token)"@,
            false,
            seq!["bakerst-brain-secrets"@, "bakerst-worker-secrets"@],
        ),
        secret_entry(
            r.required_secrets@[2],
            "VOYAGE_API_KEY"@,
            "Voyage AI API key for embeddings"@,
            false,
            seq!["bakerst-brain-secrets"@],
        ),
        r.optional_features@.len() == 5,
        feature_entry(
            r.optional_features@[0],
            "telegram"@,
            "Telegram"@,
            "Telegram bot gateway adapter"@,
            seq!["TELEGRAM_BOT_TOKEN"@],
        ),
        feature_entry(
            r.optional_features@[1],
            "github"@,
            "GitHub"@,
            "GitHub extension for repo access"@,
            seq!["GITHUB_TOKEN"@],
        ),
        feature_entry(
            r.optional_features@[2],
            "perplexity"@,
            "Perplexity"@,
            "Perplexity AI search and research tools"@,
            seq!["PERPLEXITY_API_KEY"@],
        ),
        feature_entry(
            r.optional_features@[3],
            "browser"@,
            "Browser"@,
            "AI-driven browser automation extension"@,
            Seq::empty(),
        ),
        feature_entry(
            r.optional_features@[4],
            "obsidian"@,
            "Obsidian"@,
            "Obsidian vault extension"@,
            seq!["OBSIDIAN_VAULT_PATH"@],
        ),
        r.defaults.agent_name@ == "Baker"@,
        r.defaults.namespace@ == "bakerst"@,
        r.defaults.resource_profile@ == "standard"@,
{
    let images = vec![
        image("brain", true),
        image("worker", true),
        image("ui", true),
        image("gateway", true),
        image("sysadmin", false),
        image("voice", false),
        image("ext-toolbox", false),
        image("ext-browser", false),
    ];
    let both: [&str; 2] = ["bakerst-brain-secrets", "bakerst-worker-secrets"];
    let brain_only: [&str; 1] = ["bakerst-brain-secrets"];
    let required_secrets = vec![
        secret("ANTHROPIC_OAUTH_TOKEN", "Anthropic OAuth token", true, &both),
        secret(
            "ANTHROPIC_API_KEY",
            "Anthropic API key (fallback if no OAuth token)",
            false,
            &both,
        ),
        secret("VOYAGE_API_KEY", "Voyage AI API key for embeddings", false, &brain_only),
    ];
    let telegram: [&str; 1] = ["TELEGRAM_BOT_TOKEN"];
    let github: [&str; 1] = ["GITHUB_TOKEN"];
    let perplexity: [&str; 1] = ["PERPLEXITY_API_KEY"];
    let no_secrets: [&str; 0] = [];
    let obsidian: [&str; 1] = ["OBSIDIAN_VAULT_PATH"];
    assert(both@.map_values(|t: &str| t@) =~= seq!["bakerst-brain-secrets"@, "bakerst-worker-secrets"@]);
    assert(brain_only@.map_values(|t: &str| t@) =~= seq!["bakerst-brain-secrets"@]);
    assert(telegram@.map_values(|t: &str| t@) =~= seq!["TELEGRAM_BOT_TOKEN"@]);
    assert(github@.map_values(|t: &str| t@) =~= seq!["GITHUB_TOKEN"@]);
    assert(perplexity@.map_values(|t: &str| t@) =~= seq!["PERPLEXITY_API_KEY"@]);
    assert(no_secrets@.map_values(|t: &str| t@) =~= Seq::<Seq<char>>::empty());
    assert(obsidian@.map_values(|t: &str| t@) =~= seq!["OBSIDIAN_VAULT_PATH"@]);
    let optional_features = vec![
        feature("telegram", "Telegram", "Telegram bot gateway adapter", &telegram),
        feature("github", "GitHub", "GitHub extension for repo access", &github),
        feature(
            "perplexity",
            "Perplexity",
            "Perplexity AI search and research tools",
            &perplexity,
        ),
        feature("browser", "Browser", "AI-driven browser automation extension", &no_secrets),
        feature("obsidian", "Obsidian", "Obsidian vault extension", &obsidian),
    ];
    ReleaseManifest {
        schema_version: 1,
        version: String::from_str("local"),
        date: now_rfc3339(),
        min_sysadmin_version: String::from_str("0.0.0"),
        release_notes: String::from_str("Local development deployment"),
        images,
        required_secrets,
        optional_features,
        defaults: ManifestDefaults {
            agent_name: String::from_str("Baker"),
            namespace: String::from_str("bakerst"),
            resource_profile: String::from_str("standard"),
        },
        checksums: std::collections::HashMap::new(),
    }
}

} // verus!
