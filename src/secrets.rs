use vstd::prelude::*;

use crate::app::{FeatureSelection, InstallConfig};
use crate::manifest::{ManifestImage, ReleaseManifest};
use crate::text::{join2, str_eq};

verus! {

/// A key/value entry, seen as character sequences.
pub type EntryView = (Seq<char>, Seq<char>);

/// The view of a list of string entries.
pub open spec fn entries_view(d: Seq<(String, String)>) -> Seq<EntryView> {
    d.map_values(|e: (String, String)| (e.0@, e.1@))
}

/// `e` written into `s`: it replaces the first entry with the same key, or is
/// appended when there is none.
pub open spec fn upsert_entry(s: Seq<EntryView>, e: EntryView) -> Seq<EntryView>
    decreases s.len(),
{
    if s.len() == 0 {
        seq![e]
    } else if s[0].0 == e.0 {
        seq![e] + s.skip(1)
    } else {
        seq![s[0]] + upsert_entry(s.skip(1), e)
    }
}

proof fn lemma_upsert_at(s: Seq<EntryView>, e: EntryView, i: int)
    requires
        0 <= i <= s.len(),
        forall|t: int| 0 <= t < i ==> s[t].0 != e.0,
        i < s.len() ==> s[i].0 == e.0,
    ensures
        i < s.len() ==> upsert_entry(s, e) == s.update(i, e),
        i == s.len() ==> upsert_entry(s, e) == s.push(e),
    decreases i,
{
    if i == 0 {
        if s.len() == 0 {
            assert(seq![e] =~= s.push(e));
        } else {
            assert(seq![e] + s.skip(1) =~= s.update(0, e));
        }
    } else {
        lemma_upsert_at(s.skip(1), e, i - 1);
        if i < s.len() {
            assert(seq![s[0]] + s.skip(1).update(i - 1, e) =~= s.update(i, e));
        } else {
            assert(seq![s[0]] + s.skip(1).push(e) =~= s.push(e));
        }
    }
}

/// Writes an entry into a list of entries, replacing the value of an existing key.
pub fn upsert(data: &mut Vec<(String, String)>, key: String, value: String)
    ensures
        entries_view(final(data)@) == upsert_entry(entries_view(old(data)@), (key@, value@)),
{
    let ghost s = entries_view(data@);
    let ghost e = (key@, value@);
    let mut i: usize = 0;
    while i < data.len()
        invariant
            data@ == old(data)@,
            s == entries_view(data@),
            e == (key@, value@),
            i <= data@.len(),
            forall|t: int| 0 <= t < i ==> s[t].0 != e.0,
        decreases data@.len() - i,
    {
        if str_eq(data[i].0.as_str(), key.as_str()) {
            proof {
                lemma_upsert_at(s, e, i as int);
            }
            data.set(i, (key, value));
            assert(entries_view(data@) =~= s.update(i as int, e));
            return;
        }
        i += 1;
    }
    proof {
        lemma_upsert_at(s, e, i as int);
    }
    data.push((key, value));
    assert(entries_view(data@) =~= s.push(e));
}

/// One named secret to create, with its entries.
#[derive(Debug, Clone)]
pub struct SecretGroup {
    pub name: String,
    pub data: Vec<(String, String)>,
}

/// A secret group, seen as its name and entries.
pub open spec fn group_view(g: SecretGroup) -> (Seq<char>, Seq<EntryView>) {
    (g.name@, entries_view(g.data@))
}

/// The entry `k = v` when a value was given.
pub open spec fn optional_entry(k: Seq<char>, v: Option<String>) -> Seq<EntryView> {
    match v {
        Some(s) => seq![(k, s@)],
        None => Seq::empty(),
    }
}

/// What the core services receive.
pub open spec fn brain_entries(c: InstallConfig) -> Seq<EntryView> {
    optional_entry("ANTHROPIC_OAUTH_TOKEN"@, c.oauth_token) + optional_entry(
        "ANTHROPIC_API_KEY"@,
        c.api_key,
    ) + optional_entry("VOYAGE_API_KEY"@, c.voyage_api_key) + seq![
        ("AUTH_TOKEN"@, c.auth_token@),
        ("AGENT_NAME"@, c.agent_name@),
    ]
}

/// What the workers receive: a subset of the core services' entries.
pub open spec fn worker_entries(c: InstallConfig) -> Seq<EntryView> {
    optional_entry("ANTHROPIC_OAUTH_TOKEN"@, c.oauth_token) + optional_entry(
        "ANTHROPIC_API_KEY"@,
        c.api_key,
    ) + seq![("AGENT_NAME"@, c.agent_name@)]
}

/// The values captured in one feature's secret list, in order.
pub open spec fn captured(s: Seq<(String, Option<String>)>) -> Seq<EntryView>
    decreases s.len(),
{
    if s.len() == 0 {
        Seq::empty()
    } else {
        match s.last().1 {
            Some(v) => captured(s.drop_last()).push((s.last().0@, v@)),
            None => captured(s.drop_last()),
        }
    }
}

/// The values captured for the enabled features, in order; disabled features contribute none.
pub open spec fn enabled_captured(fs: Seq<FeatureSelection>) -> Seq<EntryView>
    decreases fs.len(),
{
    if fs.len() == 0 {
        Seq::empty()
    } else if fs.last().enabled {
        enabled_captured(fs.drop_last()) + captured(fs.last().secrets@)
    } else {
        enabled_captured(fs.drop_last())
    }
}

/// Messaging-platform credentials, which the gateway reads.
pub open spec fn is_messaging_key(k: Seq<char>) -> bool {
    k == "TELEGRAM_BOT_TOKEN"@ || k == "DISCORD_BOT_TOKEN"@ || k == "DISCORD_APP_ID"@
}

/// The gateway's entries: the shared auth token, then the messaging credentials.
pub open spec fn gateway_entries(auth: Seq<char>, pairs: Seq<EntryView>) -> Seq<EntryView>
    decreases pairs.len(),
{
    if pairs.len() == 0 {
        seq![("AUTH_TOKEN"@, auth)]
    } else if is_messaging_key(pairs.last().0) {
        upsert_entry(gateway_entries(auth, pairs.drop_last()), pairs.last())
    } else {
        gateway_entries(auth, pairs.drop_last())
    }
}

/// The dedicated single-key groups of the two extension providers.
pub open spec fn dedicated_groups(pairs: Seq<EntryView>) -> Seq<(Seq<char>, Seq<EntryView>)>
    decreases pairs.len(),
{
    if pairs.len() == 0 {
        Seq::empty()
    } else if pairs.last().0 == "GITHUB_TOKEN"@ {
        dedicated_groups(pairs.drop_last()).push(("bakerst-github-secrets"@, seq![pairs.last()]))
    } else if pairs.last().0 == "PERPLEXITY_API_KEY"@ {
        dedicated_groups(pairs.drop_last()).push(
            ("bakerst-perplexity-secrets"@, seq![pairs.last()]),
        )
    } else {
        dedicated_groups(pairs.drop_last())
    }
}

/// The secret groups to create, in creation order: core services, workers, the
/// dedicated provider groups, then the gateway.
pub open spec fn planned_groups(c: InstallConfig) -> Seq<(Seq<char>, Seq<EntryView>)> {
    let pairs = enabled_captured(c.features@);
    seq![
        ("bakerst-brain-secrets"@, brain_entries(c)),
        ("bakerst-worker-secrets"@, worker_entries(c)),
    ] + dedicated_groups(pairs) + seq![
        ("bakerst-gateway-secrets"@, gateway_entries(c.auth_token@, pairs)),
    ]
}

fn push_optional(data: &mut Vec<(String, String)>, key: &str, value: &Option<String>)
    ensures
        entries_view(final(data)@) == entries_view(old(data)@) + optional_entry(key@, *value),
{
    if let Some(v) = value {
        data.push((String::from_str(key), v.clone()));
    }
    assert(entries_view(data@) =~= entries_view(old(data)@) + optional_entry(key@, *value));
}

fn push_entry(data: &mut Vec<(String, String)>, key: &str, value: &String)
    ensures
        entries_view(final(data)@) == entries_view(old(data)@).push((key@, value@)),
{
    data.push((String::from_str(key), value.clone()));
    assert(entries_view(data@) =~= entries_view(old(data)@).push((key@, value@)));
}

fn single_group(name: &str, key: &String, value: &String) -> (g: SecretGroup)
    ensures
        group_view(g) == (name@, seq![(key@, value@)]),
{
    let mut data: Vec<(String, String)> = Vec::new();
    data.push((key.clone(), value.clone()));
    assert(entries_view(data@) =~= seq![(key@, value@)]);
    SecretGroup { name: String::from_str(name), data }
}

/// Distributes the collected secrets into the secret groups to create.
pub fn plan_secrets(config: &InstallConfig) -> (r: Vec<SecretGroup>)
    ensures
        r@.map_values(|g: SecretGroup| group_view(g)) == planned_groups(*config),
{
    let mut brain: Vec<(String, String)> = Vec::new();
    push_optional(&mut brain, "ANTHROPIC_OAUTH_TOKEN", &config.oauth_token);
    push_optional(&mut brain, "ANTHROPIC_API_KEY", &config.api_key);
    push_optional(&mut brain, "VOYAGE_API_KEY", &config.voyage_api_key);
    push_entry(&mut brain, "AUTH_TOKEN", &config.auth_token);
    push_entry(&mut brain, "AGENT_NAME", &config.agent_name);
    assert(entries_view(brain@) =~= brain_entries(*config));
    let mut worker: Vec<(String, String)> = Vec::new();
    push_optional(&mut worker, "ANTHROPIC_OAUTH_TOKEN", &config.oauth_token);
    push_optional(&mut worker, "ANTHROPIC_API_KEY", &config.api_key);
    push_entry(&mut worker, "AGENT_NAME", &config.agent_name);
    assert(entries_view(worker@) =~= worker_entries(*config));

    let mut gateway: Vec<(String, String)> = Vec::new();
    push_entry(&mut gateway, "AUTH_TOKEN", &config.auth_token);
    let mut dedicated: Vec<SecretGroup> = Vec::new();
    let ghost fs = config.features@;
    let ghost auth = config.auth_token@;
    assert(entries_view(gateway@) =~= gateway_entries(auth, Seq::empty()));
    assert(dedicated@.map_values(|g: SecretGroup| group_view(g)) =~= dedicated_groups(
        Seq::empty(),
    ));
    let mut i: usize = 0;
    while i < config.features.len()
        invariant
            fs == config.features@,
            auth == config.auth_token@,
            i <= fs.len(),
            entries_view(gateway@) == gateway_entries(auth, enabled_captured(fs.take(i as int))),
            dedicated@.map_values(|g: SecretGroup| group_view(g)) == dedicated_groups(
                enabled_captured(fs.take(i as int)),
            ),
        decreases fs.len() - i,
    {
        assert(fs.take(i + 1).drop_last() =~= fs.take(i as int));
        let feature = &config.features[i];
        let ghost prefix = enabled_captured(fs.take(i as int));
        if feature.enabled {
            let mut j: usize = 0;
            assert(prefix + captured(feature.secrets@.take(0)) =~= prefix);
            while j < feature.secrets.len()
                invariant
                    *feature == fs[i as int],
                    i < fs.len(),
                    auth == config.auth_token@,
                    j <= feature.secrets@.len(),
                    entries_view(gateway@) == gateway_entries(
                        auth,
                        prefix + captured(feature.secrets@.take(j as int)),
                    ),
                    dedicated@.map_values(|g: SecretGroup| group_view(g)) == dedicated_groups(
                        prefix + captured(feature.secrets@.take(j as int)),
                    ),
                decreases feature.secrets@.len() - j,
            {
                let ghost before = prefix + captured(feature.secrets@.take(j as int));
                assert(feature.secrets@.take(j + 1).drop_last() =~= feature.secrets@.take(
                    j as int,
                ));
                let entry = &feature.secrets[j];
                proof {
                    reveal_strlit("TELEGRAM_BOT_TOKEN");
                    reveal_strlit("DISCORD_BOT_TOKEN");
                    reveal_strlit("DISCORD_APP_ID");
                    reveal_strlit("GITHUB_TOKEN");
                    reveal_strlit("PERPLEXITY_API_KEY");
                    assert("TELEGRAM_BOT_TOKEN"@[0] != "PERPLEXITY_API_KEY"@[0]);
                }
                if let Some(v) = &entry.1 {
                    let ghost after = before.push((entry.0@, v@));
                    assert(prefix + captured(feature.secrets@.take(j + 1)) =~= after);
                    assert(after.drop_last() =~= before);
                    if str_eq(entry.0.as_str(), "TELEGRAM_BOT_TOKEN") || str_eq(
                        entry.0.as_str(),
                        "DISCORD_BOT_TOKEN",
                    ) || str_eq(entry.0.as_str(), "DISCORD_APP_ID") {
                        upsert(&mut gateway, entry.0.clone(), v.clone());
                        assert(after.last().0 == entry.0@);
                        assert(is_messaging_key(entry.0@));
                        assert(entry.0@ != "GITHUB_TOKEN"@);
                        assert(entry.0@ != "PERPLEXITY_API_KEY"@);
                        assert(dedicated_groups(after) == dedicated_groups(before));
                    } else if str_eq(entry.0.as_str(), "GITHUB_TOKEN") {
                        let g = single_group("bakerst-github-secrets", &entry.0, v);
                        let ghost d = dedicated@;
                        dedicated.push(g);
                        assert(dedicated@.map_values(|g: SecretGroup| group_view(g)) =~= d.map_values(
                            |g: SecretGroup| group_view(g),
                        ).push(group_view(g)));
                        assert(dedicated_groups(after) == dedicated_groups(before).push(group_view(g)));
                    } else if str_eq(entry.0.as_str(), "PERPLEXITY_API_KEY") {
                        let g = single_group("bakerst-perplexity-secrets", &entry.0, v);
                        let ghost d = dedicated@;
                        dedicated.push(g);
                        assert(dedicated@.map_values(|g: SecretGroup| group_view(g)) =~= d.map_values(
                            |g: SecretGroup| group_view(g),
                        ).push(group_view(g)));
                        assert(dedicated_groups(after) == dedicated_groups(before).push(group_view(g)));
                    } else {
                        assert(dedicated_groups(after) == dedicated_groups(before));
                    }
                } else {
                    assert(prefix + captured(feature.secrets@.take(j + 1)) =~= before);
                }
                j += 1;
            }
            assert(feature.secrets@.take(feature.secrets@.len() as int) =~= feature.secrets@);
        }
        i += 1;
    }
    assert(fs.take(fs.len() as int) =~= fs);
    let mut plan: Vec<SecretGroup> = Vec::new();
    plan.push(SecretGroup { name: String::from_str("bakerst-brain-secrets"), data: brain });
    plan.push(SecretGroup { name: String::from_str("bakerst-worker-secrets"), data: worker });
    let ghost head = plan@;
    let ghost ded = dedicated@;
    plan.append(&mut dedicated);
    plan.push(SecretGroup { name: String::from_str("bakerst-gateway-secrets"), data: gateway });
    assert(plan@ =~= head + ded + seq![plan@.last()]);
    assert(plan@.map_values(|g: SecretGroup| group_view(g)) =~= head.map_values(
        |g: SecretGroup| group_view(g),
    ) + ded.map_values(|g: SecretGroup| group_view(g)) + seq![group_view(plan@.last())]);
    plan
}

/// The template variable that carries a component's image, if any.
pub open spec fn image_var(component: Seq<char>) -> Option<Seq<char>> {
    if component == "brain"@ {
        Some("IMAGE_BRAIN"@)
    } else if component == "worker"@ {
        Some("IMAGE_WORKER"@)
    } else if component == "ui"@ {
        Some("IMAGE_UI"@)
    } else if component == "gateway"@ {
        Some("IMAGE_GATEWAY"@)
    } else if component == "voice"@ {
        Some("IMAGE_VOICE"@)
    } else if component == "sysadmin"@ {
        Some("IMAGE_SYSADMIN"@)
    } else if component == "ext-toolbox"@ {
        Some("IMAGE_TOOLBOX"@)
    } else if component == "ext-browser"@ {
        Some("IMAGE_BROWSER"@)
    } else {
        None
    }
}

/// `vars` with each known component's image written in, in manifest order.
pub open spec fn with_images(vars: Seq<EntryView>, images: Seq<ManifestImage>) -> Seq<EntryView>
    decreases images.len(),
{
    if images.len() == 0 {
        vars
    } else {
        let v = with_images(vars, images.drop_last());
        match image_var(images.last().component@) {
            Some(k) => upsert_entry(v, (k, images.last().image@)),
            None => v,
        }
    }
}

/// The flag a feature turns on in the core services, if any.
pub open spec fn brain_flag(id: Seq<char>) -> Option<Seq<char>> {
    if id == "telegram"@ {
        Some("FEATURE_TELEGRAM"@)
    } else if id == "discord"@ {
        Some("FEATURE_DISCORD"@)
    } else if id == "voyage"@ {
        Some("FEATURE_MEMORY"@)
    } else {
        None
    }
}

/// The flag a feature turns on in the gateway, if any.
pub open spec fn gateway_flag(id: Seq<char>) -> Option<Seq<char>> {
    if id == "telegram"@ {
        Some("FEATURE_TELEGRAM"@)
    } else if id == "discord"@ {
        Some("FEATURE_DISCORD"@)
    } else {
        None
    }
}

/// Features served by an extension.
pub open spec fn is_extension_feature(id: Seq<char>) -> bool {
    id == "github"@ || id == "perplexity"@ || id == "browser"@ || id == "obsidian"@
}

/// The flags of the enabled features, in order, under `flag`.
pub open spec fn enabled_flags(fs: Seq<FeatureSelection>, gateway: bool) -> Seq<Seq<char>>
    decreases fs.len(),
{
    if fs.len() == 0 {
        Seq::empty()
    } else {
        let rest = enabled_flags(fs.drop_last(), gateway);
        let flag = if gateway {
            gateway_flag(fs.last().id@)
        } else {
            brain_flag(fs.last().id@)
        };
        match flag {
            Some(f) => if fs.last().enabled {
                rest.push(f)
            } else {
                rest
            },
            None => rest,
        }
    }
}

/// Whether an enabled feature is served by an extension.
pub open spec fn any_extension(fs: Seq<FeatureSelection>) -> bool {
    exists|i: int| 0 <= i < fs.len() && (#[trigger] fs[i]).enabled && is_extension_feature(fs[i].id@)
}

/// The flags the core services get: the enabled features', the extensions
/// flag when any extension is on, and the scheduler and MCP, always on.
pub open spec fn brain_flags(fs: Seq<FeatureSelection>) -> Seq<Seq<char>> {
    enabled_flags(fs, false) + (if any_extension(fs) {
        seq!["FEATURE_EXTENSIONS"@]
    } else {
        Seq::empty()
    }) + seq!["FEATURE_SCHEDULER"@, "FEATURE_MCP"@]
}

/// The manifest entry that turns on flag `name`.
pub open spec fn flag_line(name: Seq<char>) -> Seq<char> {
    "            - name: "@ + name + "\n              value: \"true\""@
}

/// The flag lines, one per flag, separated by newlines.
pub open spec fn flag_block(flags: Seq<Seq<char>>) -> Seq<char>
    decreases flags.len(),
{
    if flags.len() == 0 {
        Seq::empty()
    } else if flags.len() == 1 {
        flag_line(flags[0])
    } else {
        flag_block(flags.drop_last()) + "\n"@ + flag_line(flags.last())
    }
}

/// The variables the resource templates are rendered with.
pub open spec fn template_vars(ns: Seq<char>, m: ReleaseManifest, c: InstallConfig) -> Seq<EntryView> {
    let base = seq![
        ("NAMESPACE"@, ns),
        ("VERSION"@, m.version@),
        ("AGENT_NAME"@, c.agent_name@),
        ("DOOR_POLICY"@, "open"@),
    ];
    let v = with_images(base, m.images@);
    let v = upsert_entry(v, ("FEATURE_VARS"@, flag_block(brain_flags(c.features@))));
    upsert_entry(v, ("GATEWAY_FEATURE_VARS"@, flag_block(enabled_flags(c.features@, true))))
}

fn image_var_of(component: &String) -> (r: Option<&'static str>)
    ensures
        match r {
            Some(k) => image_var(component@) == Some(k@),
            None => image_var(component@).is_none(),
        },
{
    let c = component.as_str();
    if str_eq(c, "brain") {
        Some("IMAGE_BRAIN")
    } else if str_eq(c, "worker") {
        Some("IMAGE_WORKER")
    } else if str_eq(c, "ui") {
        Some("IMAGE_UI")
    } else if str_eq(c, "gateway") {
        Some("IMAGE_GATEWAY")
    } else if str_eq(c, "voice") {
        Some("IMAGE_VOICE")
    } else if str_eq(c, "sysadmin") {
        Some("IMAGE_SYSADMIN")
    } else if str_eq(c, "ext-toolbox") {
        Some("IMAGE_TOOLBOX")
    } else if str_eq(c, "ext-browser") {
        Some("IMAGE_BROWSER")
    } else {
        None
    }
}

fn flag_of(id: &String, gateway: bool) -> (r: Option<&'static str>)
    ensures
        match r {
            Some(k) => (if gateway { gateway_flag(id@) } else { brain_flag(id@) }) == Some(k@),
            None => (if gateway { gateway_flag(id@) } else { brain_flag(id@) }).is_none(),
        },
{
    let i = id.as_str();
    if str_eq(i, "telegram") {
        Some("FEATURE_TELEGRAM")
    } else if str_eq(i, "discord") {
        Some("FEATURE_DISCORD")
    } else if !gateway && str_eq(i, "voyage") {
        Some("FEATURE_MEMORY")
    } else {
        None
    }
}

fn flags_of(fs: &Vec<FeatureSelection>, gateway: bool) -> (r: Vec<&'static str>)
    ensures
        r@.map_values(|t: &str| t@) == enabled_flags(fs@, gateway),
{
    let mut out: Vec<&'static str> = Vec::new();
    let mut i: usize = 0;
    while i < fs.len()
        invariant
            i <= fs@.len(),
            out@.map_values(|t: &str| t@) == enabled_flags(fs@.take(i as int), gateway),
        decreases fs@.len() - i,
    {
        assert(fs@.take(i + 1).drop_last() =~= fs@.take(i as int));
        let ghost before = out@;
        if fs[i].enabled {
            if let Some(f) = flag_of(&fs[i].id, gateway) {
                out.push(f);
                assert(out@.map_values(|t: &str| t@) =~= before.map_values(|t: &str| t@).push(f@));
            }
        }
        i += 1;
    }
    assert(fs@.take(i as int) =~= fs@);
    out
}

fn has_extension(fs: &Vec<FeatureSelection>) -> (r: bool)
    ensures
        r == any_extension(fs@),
{
    let mut i: usize = 0;
    while i < fs.len()
        invariant
            i <= fs@.len(),
            forall|t: int| 0 <= t < i ==> !((#[trigger] fs@[t]).enabled && is_extension_feature(fs@[t].id@)),
        decreases fs@.len() - i,
    {
        let id = fs[i].id.as_str();
        if fs[i].enabled && (str_eq(id, "github") || str_eq(id, "perplexity") || str_eq(id, "browser")
            || str_eq(id, "obsidian")) {
            return true;
        }
        i += 1;
    }
    false
}

fn block_of(flags: &Vec<&'static str>) -> (r: String)
    ensures
        r@ == flag_block(flags@.map_values(|t: &str| t@)),
{
    let ghost names = flags@.map_values(|t: &str| t@);
    let mut out = String::new();
    let mut i: usize = 0;
    while i < flags.len()
        invariant
            names == flags@.map_values(|t: &str| t@),
            i <= flags@.len(),
            out@ == flag_block(names.take(i as int)),
        decreases flags@.len() - i,
    {
        assert(names.take(i + 1).drop_last() =~= names.take(i as int));
        let line = join2(join2("            - name: ", flags[i]).as_str(), "\n              value: \"true\"");
        if i > 0 {
            out.append("\n");
        }
        out.append(line.as_str());
        i += 1;
    }
    assert(names.take(i as int) =~= names);
    out
}

/// The variables the resource templates are rendered with: namespace, version,
/// agent name, door policy, each known component's image, and the flag blocks
/// of the core services and of the gateway.
pub fn build_template_vars(namespace: &str, manifest: &ReleaseManifest, config: &InstallConfig) -> (r:
    Vec<(String, String)>)
    ensures
        entries_view(r@) == template_vars(namespace@, *manifest, *config),
{
    let mut vars: Vec<(String, String)> = Vec::new();
    push_entry(&mut vars, "NAMESPACE", &String::from_str(namespace));
    push_entry(&mut vars, "VERSION", &manifest.version);
    push_entry(&mut vars, "AGENT_NAME", &config.agent_name);
    push_entry(&mut vars, "DOOR_POLICY", &String::from_str("open"));
    let ghost base = entries_view(vars@);
    let ghost imgs = manifest.images@;
    assert(base =~= seq![
        ("NAMESPACE"@, namespace@),
        ("VERSION"@, manifest.version@),
        ("AGENT_NAME"@, config.agent_name@),
        ("DOOR_POLICY"@, "open"@),
    ]);
    let mut i: usize = 0;
    while i < manifest.images.len()
        invariant
            imgs == manifest.images@,
            i <= imgs.len(),
            entries_view(vars@) == with_images(base, imgs.take(i as int)),
        decreases imgs.len() - i,
    {
        assert(imgs.take(i + 1).drop_last() =~= imgs.take(i as int));
        let img = &manifest.images[i];
        if let Some(key) = image_var_of(&img.component) {
            upsert(&mut vars, String::from_str(key), img.image.clone());
        }
        i += 1;
    }
    assert(imgs.take(i as int) =~= imgs);
    let mut brain = flags_of(&config.features, false);
    let ghost enabled = brain@;
    if has_extension(&config.features) {
        brain.push("FEATURE_EXTENSIONS");
    }
    brain.push("FEATURE_SCHEDULER");
    brain.push("FEATURE_MCP");
    assert(brain@.map_values(|t: &str| t@) =~= brain_flags(config.features@));
    upsert(&mut vars, String::from_str("FEATURE_VARS"), block_of(&brain));
    let gateway = flags_of(&config.features, true);
    upsert(&mut vars, String::from_str("GATEWAY_FEATURE_VARS"), block_of(&gateway));
    vars
}

} // verus!
