use vstd::prelude::*;

use crate::app::{App, FeatureSelection, InstallConfig, ItemStatus, Phase, SecretPrompt};
use crate::cli::Cli;
use crate::deploy::{deploy_steps, planned_steps, DeployStep};
use crate::health::{upsert_pod, upsert_pod_status, upsert_pods, HealthEvent, PodHealth};
use crate::images::PullEvent;
use crate::manifest::{ManifestFeature, ManifestImage, ManifestSecret, ReleaseManifest};
use crate::templates::generate_auth_token;
use crate::text::{
    chars_of, contains_str, decimal, decimal_string, find_from, has_substring, join2, occurs_at,
    pop_char, push_char, str_eq, string_of, trim_of, trimmed,
};

verus! {

/// A message from a background coordinator to the control loop.
#[derive(Debug)]
pub enum AsyncMsg {
    Pull(PullEvent),
    Health(HealthEvent),
    DeployStep { index: usize, result: Result<(), String> },
    DeployDone,
}

/// A keypress, as the control loop understands it.
#[derive(Debug, Clone, Copy, PartialEq, Eq, Structural)]
pub enum Key {
    Char(char),
    Backspace,
    Enter,
    Esc,
    Up,
    Down,
    Left,
    Right,
    Other,
}

/// The prompt that a secret of the manifest gives.
pub open spec fn prompt_from_secret(p: SecretPrompt, s: ManifestSecret) -> bool {
    &&& p.key@ == s.key@
    &&& p.description@ == s.description@
    &&& p.required == s.required
    &&& p.is_secret == (s.input_type@ == "secret"@)
    &&& !p.is_feature
    &&& p.value.is_none()
}

/// The selection that a feature of the manifest starts from.
pub open spec fn selection_from_feature(f: FeatureSelection, m: ManifestFeature) -> bool {
    &&& f.id@ == m.id@
    &&& f.name@ == m.name@
    &&& f.enabled == m.default_enabled
    &&& f.secrets@.len() == m.secrets@.len()
    &&& forall|j: int|
        0 <= j < m.secrets@.len() ==> f.secrets@[j].0@ == m.secrets@[j]@ && f.secrets@[j].1.is_none()
}

/// Replaces the secret prompts with one base prompt per required secret of the manifest.
pub fn build_secret_prompts(app: &mut App, manifest: &ReleaseManifest)
    ensures
        final(app).secret_prompts@.len() == manifest.required_secrets@.len(),
        forall|i: int|
            0 <= i < manifest.required_secrets@.len() ==> prompt_from_secret(
                #[trigger] final(app).secret_prompts@[i],
                manifest.required_secrets@[i],
            ),
        *final(app) == (App { secret_prompts: final(app).secret_prompts, ..*old(app) }),
{
    let mut prompts: Vec<SecretPrompt> = Vec::new();
    let mut i: usize = 0;
    while i < manifest.required_secrets.len()
        invariant
            i <= manifest.required_secrets@.len(),
            prompts@.len() == i,
            forall|j: int|
                0 <= j < i ==> prompt_from_secret(
                    #[trigger] prompts@[j],
                    manifest.required_secrets@[j],
                ),
        decreases manifest.required_secrets@.len() - i,
    {
        let secret = &manifest.required_secrets[i];
        prompts.push(
            SecretPrompt {
                key: secret.key.clone(),
                description: secret.description.clone(),
                required: secret.required,
                is_secret: str_eq(secret.input_type.as_str(), "secret"),
                is_feature: false,
                value: None,
            },
        );
        i += 1;
    }
    app.secret_prompts = prompts;
}

/// Replaces the feature selections with one per optional feature of the manifest.
pub fn build_feature_selections(app: &mut App, manifest: &ReleaseManifest)
    ensures
        final(app).config.features@.len() == manifest.optional_features@.len(),
        forall|i: int|
            0 <= i < manifest.optional_features@.len() ==> selection_from_feature(
                #[trigger] final(app).config.features@[i],
                manifest.optional_features@[i],
            ),
        *final(app) == (App {
            config: crate::app::InstallConfig { features: final(app).config.features, ..old(app).config },
            ..*old(app)
        }),
{
    let mut features: Vec<FeatureSelection> = Vec::new();
    let mut i: usize = 0;
    while i < manifest.optional_features.len()
        invariant
            i <= manifest.optional_features@.len(),
            features@.len() == i,
            forall|j: int|
                0 <= j < i ==> selection_from_feature(
                    #[trigger] features@[j],
                    manifest.optional_features@[j],
                ),
        decreases manifest.optional_features@.len() - i,
    {
        let feature = &manifest.optional_features[i];
        let mut secrets: Vec<(String, Option<String>)> = Vec::new();
        let mut k: usize = 0;
        while k < feature.secrets.len()
            invariant
                i < manifest.optional_features@.len(),
                *feature == manifest.optional_features@[i as int],
                features@.len() == i,
                forall|j: int|
                    0 <= j < i ==> selection_from_feature(
                        #[trigger] features@[j],
                        manifest.optional_features@[j],
                    ),
                k <= feature.secrets@.len(),
                secrets@.len() == k,
                forall|j: int|
                    0 <= j < k ==> secrets@[j].0@ == feature.secrets@[j]@ && secrets@[j].1.is_none(),
            decreases feature.secrets@.len() - k,
        {
            secrets.push((feature.secrets[k].clone(), None));
            k += 1;
        }
        features.push(
            FeatureSelection {
                id: feature.id.clone(),
                name: feature.name.clone(),
                enabled: feature.default_enabled,
                secrets,
            },
        );
        assert(selection_from_feature(features@[i as int], manifest.optional_features@[i as int]));
        i += 1;
    }
    app.config.features = features;
}

/// Whether a feature lists a secret under key `k`.
pub open spec fn feature_has_key(f: FeatureSelection, k: Seq<char>) -> bool {
    exists|j: int| 0 <= j < f.secrets@.len() && f.secrets@[j].0@ == k
}

/// `j` is the first position of key `k` among a feature's secrets.
pub open spec fn first_slot(s: Seq<(String, Option<String>)>, k: Seq<char>, j: int) -> bool {
    &&& 0 <= j < s.len()
    &&& s[j].0@ == k
    &&& forall|t: int| 0 <= t < j ==> s[t].0@ != k
}

/// `new` is `old` with value `v` stored under key `k` in the first feature that
/// lists `k`, at the first such entry; unchanged when no feature lists it.
pub open spec fn stores_secret(
    old: Seq<FeatureSelection>,
    new: Seq<FeatureSelection>,
    k: Seq<char>,
    v: Option<String>,
) -> bool {
    if exists|f: int| 0 <= f < old.len() && feature_has_key(#[trigger] old[f], k) {
        exists|f: int, j: int|
            {
                &&& 0 <= f < old.len()
                &&& forall|g: int| 0 <= g < f ==> !feature_has_key(#[trigger] old[g], k)
                &&& first_slot(old[f].secrets@, k, j)
                &&& new.len() == old.len()
                &&& forall|g: int| 0 <= g < old.len() && g != f ==> new[g] == old[g]
                &&& new[f] == (FeatureSelection { secrets: new[f].secrets, ..old[f] })
                &&& new[f].secrets@ == old[f].secrets@.update(j, (old[f].secrets@[j].0, v))
            }
    } else {
        new == old
    }
}

/// Stores a captured value under its key in the features that asked for it.
pub fn store_feature_secret(features: &mut Vec<FeatureSelection>, key: &str, value: Option<String>)
    ensures
        stores_secret(old(features)@, final(features)@, key@, value),
{
    let ghost k = key@;
    let mut i: usize = 0;
    while i < features.len()
        invariant
            features@ == old(features)@,
            i <= features@.len(),
            forall|g: int| 0 <= g < i ==> !feature_has_key(#[trigger] features@[g], k),
            k == key@,
        decreases features@.len() - i,
    {
        let n = features[i].secrets.len();
        let mut j: usize = 0;
        while j < n
            invariant
                features@ == old(features)@,
                i < features@.len(),
                n == features@[i as int].secrets@.len(),
                j <= n,
                forall|t: int| 0 <= t < j ==> features@[i as int].secrets@[t].0@ != k,
                forall|g: int| 0 <= g < i ==> !feature_has_key(#[trigger] features@[g], k),
                k == key@,
            decreases n - j,
        {
            if str_eq(features[i].secrets[j].0.as_str(), key) {
                let ghost before = features@;
                let mut f = features.remove(i);
                let name = f.secrets[j].0.clone();
                f.secrets.set(j, (name, value));
                features.insert(i, f);
                assert(feature_has_key(before[i as int], k));
                assert(first_slot(before[i as int].secrets@, k, j as int));
                assert(features@ =~= before.update(i as int, f));
                return;
            }
            j += 1;
        }
        assert(!feature_has_key(features@[i as int], k));
        i += 1;
    }
}

/// The value captured from the input buffer: none when it is empty.
pub open spec fn submitted(input: String) -> Option<String> {
    if input@.len() == 0 {
        None
    } else {
        Some(input)
    }
}

/// The configuration after value `v` was captured for key `k`.
pub open spec fn config_after_secret(
    c: InstallConfig,
    k: Seq<char>,
    v: Option<String>,
    new: InstallConfig,
) -> bool {
    if k == "ANTHROPIC_OAUTH_TOKEN"@ {
        new == (InstallConfig { oauth_token: v, ..c })
    } else if k == "ANTHROPIC_API_KEY"@ {
        new == (InstallConfig { api_key: v, ..c })
    } else if k == "VOYAGE_API_KEY"@ {
        new == (InstallConfig { voyage_api_key: v, ..c })
    } else if k == "AGENT_NAME"@ {
        match v {
            Some(name) => new == (InstallConfig { agent_name: name, ..c }),
            None => new == c,
        }
    } else {
        &&& new == (InstallConfig { features: new.features, ..c })
        &&& stores_secret(c.features@, new.features@, k, v)
    }
}

/// Whether the current prompt would be left as it is on Enter: no prompt is
/// pending, or it is required and the input is empty.
pub open spec fn submit_refused(a: App) -> bool {
    ||| a.current_secret_index >= a.secret_prompts@.len()
    ||| (a.secret_prompts@[a.current_secret_index as int].required && a.secret_input@.len() == 0)
}

/// `new` is `old` after the input buffer was submitted for the current prompt.
pub open spec fn after_submit(old: App, new: App) -> bool {
    let idx = old.current_secret_index as int;
    if submit_refused(old) {
        new == old
    } else {
        let v = submitted(old.secret_input);
        &&& new.secret_prompts@ == old.secret_prompts@.update(
            idx,
            SecretPrompt { value: v, ..old.secret_prompts@[idx] },
        )
        &&& config_after_secret(old.config, old.secret_prompts@[idx].key@, v, new.config)
        &&& new.secret_input@.len() == 0
        &&& new == (App {
            config: new.config,
            secret_prompts: new.secret_prompts,
            current_secret_index: (idx + 1) as usize,
            secret_input: new.secret_input,
            ..old
        })
    }
}

/// Captures the input buffer as the value of the current prompt and moves to the next one.
pub fn submit_current_secret(app: &mut App)
    ensures
        after_submit(*old(app), *final(app)),
{
    let idx = app.current_secret_index;
    if idx >= app.secret_prompts.len() {
        return;
    }
    let empty = app.secret_input.as_str().is_empty();
    if app.secret_prompts[idx].required && empty {
        return;
    }
    let value = if empty { None } else { Some(app.secret_input.clone()) };
    let stored = if empty { None } else { Some(app.secret_input.clone()) };
    let mut prompt = app.secret_prompts.remove(idx);
    let key = prompt.key.clone();
    prompt.value = stored;
    app.secret_prompts.insert(idx, prompt);
    proof {
        reveal_strlit("ANTHROPIC_OAUTH_TOKEN");
    }
    if str_eq(key.as_str(), "ANTHROPIC_OAUTH_TOKEN") {
        app.config.oauth_token = value;
    } else if str_eq(key.as_str(), "ANTHROPIC_API_KEY") {
        app.config.api_key = value;
    } else if str_eq(key.as_str(), "VOYAGE_API_KEY") {
        app.config.voyage_api_key = value;
    } else if str_eq(key.as_str(), "AGENT_NAME") {
        if let Some(v) = value {
            app.config.agent_name = v;
        }
    } else {
        store_feature_secret(&mut app.config.features, key.as_str(), value);
    }
    app.current_secret_index = idx + 1;
    app.secret_input = String::new();
    assert(app.secret_prompts@ =~= old(app).secret_prompts@.update(
        idx as int,
        SecretPrompt { value: submitted(old(app).secret_input), ..old(app).secret_prompts@[idx as int] },
    ));
}

/// `new` is `old` after `key` was pressed in the Secrets phase.
pub open spec fn secrets_key_effect(old: App, new: App, key: Key) -> bool {
    &&& old.current_secret_index >= old.secret_prompts@.len() ==> new == old
    &&& old.current_secret_index < old.secret_prompts@.len() ==> match key {
        Key::Char(c) => new.secret_input@ == old.secret_input@.push(c) && new
            == (App { secret_input: new.secret_input, ..old }),
        Key::Backspace => (if old.secret_input@.len() == 0 {
            new.secret_input@ == old.secret_input@
        } else {
            new.secret_input@ == old.secret_input@.drop_last()
        }) && new == (App { secret_input: new.secret_input, ..old }),
        Key::Enter => after_submit(old, new),
        Key::Esc => if old.secret_prompts@[old.current_secret_index as int].required {
            new == old
        } else {
            &&& new.secret_input@.len() == 0
            &&& new.secret_prompts@ == old.secret_prompts@.update(
                old.current_secret_index as int,
                SecretPrompt {
                    value: None,
                    ..old.secret_prompts@[old.current_secret_index as int]
                },
            )
            &&& new == (App {
                secret_prompts: new.secret_prompts,
                current_secret_index: (old.current_secret_index + 1) as usize,
                secret_input: new.secret_input,
                ..old
            })
        },
        _ => new == old,
    }
}

/// Applies a key in the Secrets phase: edit the input, submit it, or skip an optional prompt.
pub fn handle_secrets_key(app: &mut App, key: Key)
    ensures
        secrets_key_effect(*old(app), *final(app), key),
{
    let idx = app.current_secret_index;
    if idx >= app.secret_prompts.len() {
        return;
    }
    match key {
        Key::Char(c) => {
            push_char(&mut app.secret_input, c);
        },
        Key::Backspace => {
            let _ = pop_char(&mut app.secret_input);
        },
        Key::Enter => {
            submit_current_secret(app);
        },
        Key::Esc => {
            if !app.secret_prompts[idx].required {
                let mut prompt = app.secret_prompts.remove(idx);
                prompt.value = None;
                app.secret_prompts.insert(idx, prompt);
                app.current_secret_index = idx + 1;
                app.secret_input = String::new();
                assert(app.secret_prompts@ =~= old(app).secret_prompts@.update(
                    idx as int,
                    SecretPrompt { value: None, ..old(app).secret_prompts@[idx as int] },
                ));
            }
        },
        _ => {},
    }
}

/// `new` is `old` after `key` was pressed in the Confirm phase.
pub open spec fn confirm_key_effect(old: App, new: App, key: Key) -> bool {
    match key {
        Key::Left => new == (App { confirm_selected: 0, ..old }),
        Key::Right => new == (App { confirm_selected: 1, ..old }),
        Key::Enter => if old.confirm_selected == 0 {
            new == (App {
                phase: match old.phase.spec_next() {
                    Some(p) => p,
                    None => old.phase,
                },
                ..old
            })
        } else if old.phase == Phase::Confirm {
            &&& new.secret_input@.len() == 0
            &&& new == (App {
                phase: Phase::Secrets,
                current_secret_index: 0,
                secret_input: new.secret_input,
                ..old
            })
        } else {
            new == old
        },
        Key::Char('q') => new == (App { should_quit: true, ..old }),
        _ => new == old,
    }
}

/// Applies a key in the Confirm phase: choose Confirm or Cancel, then act on it.
pub fn handle_confirm_key(app: &mut App, key: Key)
    ensures
        confirm_key_effect(*old(app), *final(app), key),
{
    match key {
        Key::Left => {
            app.confirm_selected = 0;
        },
        Key::Right => {
            app.confirm_selected = 1;
        },
        Key::Enter => {
            if app.confirm_selected == 0 {
                app.advance();
            } else {
                app.back_to_secrets();
            }
        },
        Key::Char('q') => {
            app.should_quit = true;
        },
        _ => {},
    }
}

/// The base prompts of a prompt list: those not contributed by a feature, in order.
pub open spec fn base_prompts(s: Seq<SecretPrompt>) -> Seq<SecretPrompt>
    decreases s.len(),
{
    if s.len() == 0 {
        Seq::empty()
    } else if s.last().is_feature {
        base_prompts(s.drop_last())
    } else {
        base_prompts(s.drop_last()).push(s.last())
    }
}

/// The (feature name, secret key) pairs of the enabled features, in order.
pub open spec fn enabled_feature_keys(fs: Seq<FeatureSelection>) -> Seq<(Seq<char>, Seq<char>)>
    decreases fs.len(),
{
    if fs.len() == 0 {
        Seq::empty()
    } else if fs.last().enabled {
        enabled_feature_keys(fs.drop_last()) + fs.last().secrets@.map_values(
            |e: (String, Option<String>)| (fs.last().name@, e.0@),
        )
    } else {
        enabled_feature_keys(fs.drop_last())
    }
}

/// The prompt that asks for secret `k` of the feature named `name`.
pub open spec fn feature_prompt(p: SecretPrompt, name: Seq<char>, k: Seq<char>) -> bool {
    &&& p.key@ == k
    &&& p.description@ == name + " \u{2014} "@ + k
    &&& !p.required
    &&& p.is_secret == (has_substring(k, "TOKEN"@) || has_substring(k, "KEY"@))
    &&& p.is_feature
    &&& p.value.is_none()
}

/// `new` is `old` once the feature selection was confirmed with auth token `token`:
/// feature prompts rebuilt after the base prompts, then a detour through Secrets
/// when there are any, else on to the next phase.
pub open spec fn after_features_confirmed(old: App, new: App, token: String) -> bool {
    let base = base_prompts(old.secret_prompts@);
    let keys = enabled_feature_keys(old.config.features@);
    &&& new.config == (InstallConfig { auth_token: token, ..old.config })
    &&& new.secret_prompts@.len() == base.len() + keys.len()
    &&& new.secret_prompts@.subrange(0, base.len() as int) == base
    &&& forall|i: int|
        0 <= i < keys.len() ==> feature_prompt(
            #[trigger] new.secret_prompts@[base.len() + i],
            keys[i].0,
            keys[i].1,
        )
    &&& if keys.len() == 0 {
        new == (App {
            phase: match old.phase.spec_next() {
                Some(p) => p,
                None => old.phase,
            },
            config: new.config,
            secret_prompts: new.secret_prompts,
            ..old
        })
    } else {
        new == (App {
            phase: Phase::Secrets,
            config: new.config,
            secret_prompts: new.secret_prompts,
            current_secret_index: base.len() as usize,
            collecting_feature_secrets: true,
            ..old
        })
    }
}

/// The prompt for secret `key` of the feature named `name`.
fn make_feature_prompt(name: &String, key: &String) -> (p: SecretPrompt)
    ensures
        feature_prompt(p, name@, key@),
{
    let description = join2(join2(name.as_str(), " \u{2014} ").as_str(), key.as_str());
    let is_secret = contains_str(key.as_str(), "TOKEN") || contains_str(key.as_str(), "KEY");
    SecretPrompt {
        key: key.clone(),
        description,
        required: false,
        is_secret,
        is_feature: true,
        value: None,
    }
}

/// Confirms the feature selection with a freshly generated auth token: rebuilds
/// the feature prompts and either detours through Secrets to collect them or
/// moves on to Confirm.
pub fn confirm_features(app: &mut App, token: String)
    ensures
        after_features_confirmed(*old(app), *final(app), token),
{
    app.config.auth_token = token;
    let ghost old_prompts = app.secret_prompts@;
    let mut rest: Vec<SecretPrompt> = Vec::new();
    std::mem::swap(&mut rest, &mut app.secret_prompts);
    let mut kept: Vec<SecretPrompt> = Vec::new();
    let total = rest.len();
    let mut taken: usize = 0;
    while rest.len() > 0
        invariant
            total == old_prompts.len(),
            taken + rest@.len() == total,
            rest@ == old_prompts.skip(taken as int),
            kept@ == base_prompts(old_prompts.take(taken as int)),
        decreases rest@.len(),
    {
        let p = rest.remove(0);
        assert(old_prompts.take(taken + 1).drop_last() =~= old_prompts.take(taken as int));
        if !p.is_feature {
            kept.push(p);
        }
        taken += 1;
        assert(rest@ =~= old_prompts.skip(taken as int));
    }
    assert(old_prompts.take(taken as int) =~= old_prompts);
    let base_count = kept.len();
    let ghost base = kept@;
    let ghost fs = app.config.features@;
    let mut i: usize = 0;
    while i < app.config.features.len()
        invariant
            fs == app.config.features@,
            i <= fs.len(),
            kept@.len() == base_count + enabled_feature_keys(fs.take(i as int)).len(),
            kept@.subrange(0, base_count as int) == base,
            base.len() == base_count,
            forall|t: int|
                0 <= t < enabled_feature_keys(fs.take(i as int)).len() ==> feature_prompt(
                    #[trigger] kept@[base_count + t],
                    enabled_feature_keys(fs.take(i as int))[t].0,
                    enabled_feature_keys(fs.take(i as int))[t].1,
                ),
        decreases fs.len() - i,
    {
        let ghost before = enabled_feature_keys(fs.take(i as int));
        assert(fs.take(i + 1).drop_last() =~= fs.take(i as int));
        let feature = &app.config.features[i];
        if feature.enabled {
            let mut j: usize = 0;
            while j < feature.secrets.len()
                invariant
                    *feature == fs[i as int],
                    i < fs.len(),
                    j <= feature.secrets@.len(),
                    kept@.len() == base_count + before.len() + j,
                    kept@.subrange(0, base_count as int) == base,
                    base.len() == base_count,
                    forall|t: int|
                        0 <= t < before.len() ==> feature_prompt(
                            #[trigger] kept@[base_count + t],
                            before[t].0,
                            before[t].1,
                        ),
                    forall|t: int|
                        0 <= t < j ==> feature_prompt(
                            #[trigger] kept@[base_count + before.len() + t],
                            feature.name@,
                            feature.secrets@[t].0@,
                        ),
                decreases feature.secrets@.len() - j,
            {
                let prompt = make_feature_prompt(&feature.name, &feature.secrets[j].0);
                let ghost prev = kept@;
                kept.push(prompt);
                assert(kept@.subrange(0, base_count as int) =~= prev.subrange(0, base_count as int));
                j += 1;
            }
            let ghost after = enabled_feature_keys(fs.take(i + 1));
            assert(after =~= before + feature.secrets@.map_values(
                |e: (String, Option<String>)| (feature.name@, e.0@),
            ));
            assert forall|t: int| 0 <= t < after.len() implies feature_prompt(
                #[trigger] kept@[base_count + t],
                after[t].0,
                after[t].1,
            ) by {
                if t >= before.len() {
                    let u = t - before.len();
                    assert(kept@[base_count + t] == kept@[base_count + before.len() + u]);
                }
            }
        }
        i += 1;
    }
    assert(fs.take(fs.len() as int) =~= fs);
    if kept.len() == base_count {
        app.secret_prompts = kept;
        app.advance();
    } else {
        app.secret_prompts = kept;
        app.current_secret_index = base_count;
        app.collecting_feature_secrets = true;
        app.phase = Phase::Secrets;
    }
}

/// `new` is `old` after `key` was pressed in the Features phase.
pub open spec fn features_key_effect(old: App, new: App, key: Key) -> bool {
    match key {
        Key::Up => new == (App {
            feature_cursor: if old.feature_cursor > 0 {
                (old.feature_cursor - 1) as usize
            } else {
                old.feature_cursor
            },
            ..old
        }),
        Key::Down => new == (App {
            feature_cursor: if old.feature_cursor + 1 < old.config.features@.len() {
                (old.feature_cursor + 1) as usize
            } else {
                old.feature_cursor
            },
            ..old
        }),
        Key::Char(' ') => if old.feature_cursor < old.config.features@.len() {
            let c = old.feature_cursor as int;
            let f = old.config.features@[c];
            new == (App {
                config: InstallConfig {
                    features: new.config.features,
                    ..old.config
                },
                ..old
            }) && new.config.features@ == old.config.features@.update(
                c,
                FeatureSelection { enabled: !f.enabled, ..f },
            )
        } else {
            new == old
        },
        Key::Enter => new.config.auth_token@.len() == 64 && after_features_confirmed(
            old,
            new,
            new.config.auth_token,
        ),
        Key::Char('q') => new == (App { should_quit: true, ..old }),
        _ => new == old,
    }
}

/// Applies a key in the Features phase: move the cursor, toggle the feature
/// under it, confirm the selection, or quit.
pub fn handle_features_key(app: &mut App, key: Key)
    ensures
        features_key_effect(*old(app), *final(app), key),
{
    match key {
        Key::Up => {
            if app.feature_cursor > 0 {
                app.feature_cursor = app.feature_cursor - 1;
            }
        },
        Key::Down => {
            if app.config.features.len() > 0 && app.feature_cursor < app.config.features.len() - 1 {
                app.feature_cursor = app.feature_cursor + 1;
            }
        },
        Key::Char(' ') => {
            let c = app.feature_cursor;
            if c < app.config.features.len() {
                let mut f = app.config.features.remove(c);
                f.enabled = !f.enabled;
                app.config.features.insert(c, f);
                assert(app.config.features@ =~= old(app).config.features@.update(
                    c as int,
                    FeatureSelection { enabled: !old(app).config.features@[c as int].enabled, ..old(app).config.features@[c as int] },
                ));
            }
        },
        Key::Enter => {
            let token = generate_auth_token();
            confirm_features(app, token);
        },
        Key::Char('q') => {
            app.should_quit = true;
        },
        _ => {},
    }
}

/// Applies a key to the phase it was pressed in; true when the operator asked to
/// open the installed UI.
pub fn handle_key(app: &mut App, key: Key) -> (open_ui: bool)
    ensures
        open_ui == (old(app).phase == Phase::Complete && key == Key::Char('o')),
        old(app).phase == Phase::Secrets ==> secrets_key_effect(*old(app), *final(app), key),
        old(app).phase == Phase::Features ==> features_key_effect(*old(app), *final(app), key),
        old(app).phase == Phase::Confirm ==> confirm_key_effect(*old(app), *final(app), key),
        (old(app).phase == Phase::Preflight || old(app).phase == Phase::Pull || old(app).phase
            == Phase::Deploy || old(app).phase == Phase::Health || old(app).phase == Phase::Complete)
            ==> *final(app) == (App {
            should_quit: old(app).should_quit || key == Key::Char('q'),
            ..*old(app)
        }),
{
    match app.phase {
        Phase::Secrets => {
            handle_secrets_key(app, key);
            false
        },
        Phase::Features => {
            handle_features_key(app, key);
            false
        },
        Phase::Confirm => {
            handle_confirm_key(app, key);
            false
        },
        Phase::Complete => {
            if key == Key::Char('q') {
                app.should_quit = true;
            }
            key == Key::Char('o')
        },
        _ => {
            if key == Key::Char('q') {
                app.should_quit = true;
            }
            false
        },
    }
}

/// A progress counter moved one step on.
pub open spec fn bump(n: usize) -> usize {
    if n < usize::MAX {
        (n + 1) as usize
    } else {
        n
    }
}

/// A status table with entry `i`, when it exists, set to status `st`.
pub open spec fn with_status(t: Seq<(String, ItemStatus)>, i: int, st: ItemStatus) -> Seq<(String, ItemStatus)> {
    if 0 <= i < t.len() {
        t.update(i, (t[i].0, st))
    } else {
        t
    }
}

fn set_status(t: &mut Vec<(String, ItemStatus)>, i: usize, st: ItemStatus)
    ensures
        final(t)@ == with_status(old(t)@, i as int, st),
{
    if i < t.len() {
        let (label, _) = t.remove(i);
        t.insert(i, (label, st));
    }
}

/// `i` is the first position of marker `m` in `s`.
pub open spec fn first_occurrence(s: Seq<char>, m: Seq<char>, i: int) -> bool {
    occurs_at(s, m, i) && forall|j: int| 0 <= j < i ==> !occurs_at(s, m, j)
}

/// The text of `s` before the first occurrence of `m`, or all of it.
pub open spec fn before_marker(s: Seq<char>, m: Seq<char>) -> Seq<char> {
    if exists|i: int| first_occurrence(s, m, i) {
        s.take(choose|i: int| first_occurrence(s, m, i))
    } else {
        s
    }
}

/// A pull's label marked with its retry attempt, replacing an earlier mark.
pub open spec fn retry_label(label: Seq<char>, attempt: nat) -> Seq<char> {
    before_marker(label, " (retry"@) + " (retry "@ + decimal(attempt) + ")"@
}

/// Marks a pull's label with the attempt being retried.
pub fn make_retry_label(label: &str, attempt: u32) -> (r: String)
    ensures
        r@ == retry_label(label@, attempt as nat),
{
    let lc = chars_of(label);
    let mc = chars_of(" (retry");
    let base = match find_from(&lc, &mc, 0) {
        Some(i) => {
            let mut head: Vec<char> = Vec::new();
            let mut k: usize = 0;
            while k < i
                invariant
                    k <= i <= lc@.len(),
                    head@ == lc@.subrange(0, k as int),
                decreases i - k,
            {
                head.push(lc[k]);
                k += 1;
                assert(head@ =~= lc@.subrange(0, k as int));
            }
            assert(first_occurrence(label@, " (retry"@, i as int));
            assert forall|j: int| first_occurrence(label@, " (retry"@, j) implies j == i by {
                if j < i {
                    assert(!occurs_at(lc@, mc@, j));
                }
                if j > i {
                    assert(!occurs_at(label@, " (retry"@, i as int));
                }
            }
            string_of(&head)
        },
        None => {
            assert(!exists|j: int| first_occurrence(label@, " (retry"@, j));
            String::from_str(label)
        },
    };
    let num = decimal_string(attempt);
    join2(join2(join2(base.as_str(), " (retry ").as_str(), num.as_str()).as_str(), ")")
}

/// `new` is `old` after pull event `event` was applied.
pub open spec fn pull_event_effect(old: App, new: App, event: PullEvent) -> bool {
    match event {
        PullEvent::Started { index, image } => new == (App {
            pull_statuses: new.pull_statuses,
            ..old
        }) && new.pull_statuses@ == with_status(
            old.pull_statuses@,
            index as int,
            ItemStatus::InProgress,
        ),
        PullEvent::Completed { index, image, elapsed } => new == (App {
            pull_statuses: new.pull_statuses,
            pull_progress: (bump(old.pull_progress.0), old.pull_progress.1),
            ..old
        }) && new.pull_statuses@ == with_status(
            old.pull_statuses@,
            index as int,
            ItemStatus::Done,
        ),
        PullEvent::Failed { index, image, error, attempt } => new == (App {
            pull_statuses: new.pull_statuses,
            pull_progress: (bump(old.pull_progress.0), old.pull_progress.1),
            ..old
        }) && new.pull_statuses@ == with_status(
            old.pull_statuses@,
            index as int,
            ItemStatus::Failed(error),
        ),
        PullEvent::Retrying { index, image, attempt } => new == (App {
            pull_statuses: new.pull_statuses,
            ..old
        }) && new.pull_statuses@.len() == old.pull_statuses@.len() && (index
            < old.pull_statuses@.len() ==> new.pull_statuses@[index as int].0@
            == retry_label(old.pull_statuses@[index as int].0@, attempt as nat)
            && new.pull_statuses@[index as int].1 == ItemStatus::InProgress
            && new.pull_statuses@ == old.pull_statuses@.update(
            index as int,
            new.pull_statuses@[index as int],
        )) && (index >= old.pull_statuses@.len() ==> new.pull_statuses@
            == old.pull_statuses@),
    }
}

/// Applies a pull event to the pull status table and progress counter.
pub fn handle_pull_event(app: &mut App, event: PullEvent)
    ensures
        pull_event_effect(*old(app), *final(app), event),
{
    match event {
        PullEvent::Started { index, image } => {
            set_status(&mut app.pull_statuses, index, ItemStatus::InProgress);
        },
        PullEvent::Completed { index, image, elapsed } => {
            set_status(&mut app.pull_statuses, index, ItemStatus::Done);
            if app.pull_progress.0 < usize::MAX {
                app.pull_progress.0 = app.pull_progress.0 + 1;
            }
        },
        PullEvent::Failed { index, image, error, attempt } => {
            set_status(&mut app.pull_statuses, index, ItemStatus::Failed(error));
            if app.pull_progress.0 < usize::MAX {
                app.pull_progress.0 = app.pull_progress.0 + 1;
            }
        },
        PullEvent::Retrying { index, image, attempt } => {
            if index < app.pull_statuses.len() {
                let (label, _) = app.pull_statuses.remove(index);
                let marked = make_retry_label(label.as_str(), attempt);
                app.pull_statuses.insert(index, (marked, ItemStatus::InProgress));
                assert(app.pull_statuses@ =~= old(app).pull_statuses@.update(
                    index as int,
                    app.pull_statuses@[index as int],
                ));
            }
        },
    }
}

/// `new` is `old` after health event `event` was applied.
pub open spec fn health_event_effect(old: App, new: App, event: HealthEvent) -> bool {
    match event {
        HealthEvent::PodUpdate(pod) => new == (App {
            pod_statuses: new.pod_statuses,
            ..old
        }) && new.pod_statuses@ == upsert_pod(old.pod_statuses@, pod),
        HealthEvent::RecoveryAttempt { deployment, attempt } => new == old,
        HealthEvent::AllHealthy => new == (App {
            health_done: true,
            health_failed: false,
            ..old
        }),
        HealthEvent::Failed { unhealthy } => new == (App {
            pod_statuses: new.pod_statuses,
            health_done: true,
            health_failed: true,
            ..old
        }) && new.pod_statuses@ == upsert_pods(old.pod_statuses@, unhealthy@),
    }
}

/// Applies a health event: pod records are upserted by name; a terminal event
/// marks the health phase done, and failed when it timed out.
pub fn handle_health_event(app: &mut App, event: HealthEvent)
    ensures
        health_event_effect(*old(app), *final(app), event),
{
    match event {
        HealthEvent::PodUpdate(pod) => {
            upsert_pod_status(&mut app.pod_statuses, pod);
        },
        HealthEvent::RecoveryAttempt { deployment, attempt } => {},
        HealthEvent::AllHealthy => {
            app.health_done = true;
            app.health_failed = false;
        },
        HealthEvent::Failed { unhealthy } => {
            let ghost pods = unhealthy@;
            let mut rest = unhealthy;
            let mut k: usize = 0;
            let total = rest.len();
            assert(pods.take(0) =~= Seq::<PodHealth>::empty());
            while rest.len() > 0
                invariant
                    total == pods.len(),
                    k + rest@.len() == total,
                    rest@ == pods.skip(k as int),
                    app.pod_statuses@ == upsert_pods(old(app).pod_statuses@, pods.take(k as int)),
                    *app == (App { pod_statuses: app.pod_statuses, ..*old(app) }),
                decreases rest@.len(),
            {
                let pod = rest.remove(0);
                assert(pods.take(k + 1).drop_last() =~= pods.take(k as int));
                upsert_pod_status(&mut app.pod_statuses, pod);
                k += 1;
                assert(rest@ =~= pods.skip(k as int));
            }
            assert(pods.take(k as int) =~= pods);
            app.health_done = true;
            app.health_failed = true;
        },
    }
}

/// Applies one coordinator message to the installer state.
pub fn handle_async_msg(app: &mut App, msg: AsyncMsg)
    ensures
        match msg {
            AsyncMsg::DeployStep { index, result } => if index < old(app).deploy_statuses@.len() {
                *final(app) == (App {
                    deploy_statuses: final(app).deploy_statuses,
                    deploy_progress: (bump(old(app).deploy_progress.0), old(app).deploy_progress.1),
                    ..*old(app)
                }) && final(app).deploy_statuses@ == with_status(
                    old(app).deploy_statuses@,
                    index as int,
                    match result {
                        Ok(_) => ItemStatus::Done,
                        Err(e) => ItemStatus::Failed(e),
                    },
                )
            } else {
                *final(app) == *old(app)
            },
            AsyncMsg::DeployDone => *final(app) == (App {
                phase: match old(app).phase.spec_next() {
                    Some(p) => p,
                    None => old(app).phase,
                },
                ..*old(app)
            }),
            AsyncMsg::Pull(event) => pull_event_effect(*old(app), *final(app), event),
            AsyncMsg::Health(event) => health_event_effect(*old(app), *final(app), event),
        },
{
    match msg {
        AsyncMsg::Pull(event) => handle_pull_event(app, event),
        AsyncMsg::Health(event) => handle_health_event(app, event),
        AsyncMsg::DeployStep { index, result } => {
            if index < app.deploy_statuses.len() {
                let st = match result {
                    Ok(()) => ItemStatus::Done,
                    Err(e) => ItemStatus::Failed(e),
                };
                set_status(&mut app.deploy_statuses, index, st);
                if app.deploy_progress.0 < usize::MAX {
                    app.deploy_progress.0 = app.deploy_progress.0 + 1;
                }
            }
        },
        AsyncMsg::DeployDone => {
            app.advance();
        },
    }
}

/// The images to pull: the required ones, and the optional ones unless extensions are skipped.
pub open spec fn pull_list(images: Seq<ManifestImage>, skip_extensions: bool) -> Seq<Seq<char>>
    decreases images.len(),
{
    if images.len() == 0 {
        Seq::empty()
    } else if images.last().required || !skip_extensions {
        pull_list(images.drop_last(), skip_extensions).push(images.last().image@)
    } else {
        pull_list(images.drop_last(), skip_extensions)
    }
}

/// A status table of fresh entries for the given labels.
pub open spec fn pending_table(t: Seq<(String, ItemStatus)>, labels: Seq<Seq<char>>) -> bool {
    &&& t.len() == labels.len()
    &&& forall|i: int| 0 <= i < t.len() ==> (#[trigger] t[i]).0@ == labels[i] && t[i].1 == ItemStatus::Pending
}

/// Sets up the pull phase: its status table and progress, and the images to pull.
pub fn start_pull_phase(app: &mut App, cli: &Cli) -> (r: Option<Vec<String>>)
    ensures
        old(app).manifest.is_none() ==> r.is_none() && *final(app) == *old(app),
        old(app).manifest matches Some(m) ==> r matches Some(images) && images@.map_values(
            |s: String| s@,
        ) == pull_list(m.images@, cli.skip_extensions) && pending_table(
            final(app).pull_statuses@,
            pull_list(m.images@, cli.skip_extensions),
        ) && *final(app) == (App {
            pull_statuses: final(app).pull_statuses,
            pull_progress: (0, images@.len() as usize),
            ..*old(app)
        }),
{
    let manifest = match &app.manifest {
        Some(m) => m,
        None => {
            return None;
        },
    };
    let ghost imgs = manifest.images@;
    let mut images: Vec<String> = Vec::new();
    let mut table: Vec<(String, ItemStatus)> = Vec::new();
    let mut i: usize = 0;
    while i < manifest.images.len()
        invariant
            imgs == manifest.images@,
            i <= imgs.len(),
            images@.map_values(|s: String| s@) == pull_list(imgs.take(i as int), cli.skip_extensions),
            pending_table(table@, pull_list(imgs.take(i as int), cli.skip_extensions)),
        decreases imgs.len() - i,
    {
        assert(imgs.take(i + 1).drop_last() =~= imgs.take(i as int));
        let img = &manifest.images[i];
        if img.required || !cli.skip_extensions {
            let ghost before = images@;
            images.push(img.image.clone());
            table.push((img.image.clone(), ItemStatus::Pending));
            assert(images@.map_values(|s: String| s@) =~= before.map_values(|s: String| s@).push(
                img.image@,
            ));
        }
        i += 1;
    }
    assert(imgs.take(i as int) =~= imgs);
    let n = images.len();
    app.pull_statuses = table;
    app.pull_progress = (0, n);
    Some(images)
}

/// Sets up the deploy phase: its status table and progress, and the steps to run.
pub fn start_deploy_phase(app: &mut App, cli: &Cli) -> (r: Option<Vec<DeployStep>>)
    ensures
        old(app).manifest.is_none() ==> r.is_none() && *final(app) == *old(app),
        old(app).manifest matches Some(m) ==> r matches Some(steps) && steps@ == planned_steps(
            m,
            cli.skip_extensions,
        ) && pending_table(
            final(app).deploy_statuses@,
            steps@.map_values(|s: DeployStep| s.spec_label()),
        ) && *final(app) == (App {
            deploy_statuses: final(app).deploy_statuses,
            deploy_progress: (0, steps@.len() as usize),
            ..*old(app)
        }),
{
    let steps = match &app.manifest {
        Some(m) => deploy_steps(m, cli.skip_extensions),
        None => {
            return None;
        },
    };
    let mut table: Vec<(String, ItemStatus)> = Vec::new();
    let mut i: usize = 0;
    while i < steps.len()
        invariant
            i <= steps@.len(),
            table@.len() == i,
            forall|t: int|
                0 <= t < i ==> (#[trigger] table@[t]).0@ == steps@[t].spec_label() && table@[t].1
                    == ItemStatus::Pending,
        decreases steps@.len() - i,
    {
        table.push((String::from_str(steps[i].label()), ItemStatus::Pending));
        i += 1;
    }
    let n = steps.len();
    app.deploy_statuses = table;
    app.deploy_progress = (0, n);
    Some(steps)
}

/// The workloads that every install monitors.
pub open spec fn core_workloads() -> Seq<Seq<char>> {
    seq!["brain"@, "worker"@, "gateway"@, "ui"@, "nats"@, "qdrant"@]
}

/// Whether an optional component runs a workload of its own.
pub open spec fn monitored_component(c: Seq<char>) -> bool {
    c == "voice"@ || c == "sysadmin"@ || c == "ext-toolbox"@ || c == "ext-browser"@
}

/// The workloads of the optional images, in manifest order.
pub open spec fn optional_workloads(images: Seq<ManifestImage>) -> Seq<Seq<char>>
    decreases images.len(),
{
    if images.len() == 0 {
        Seq::empty()
    } else if !images.last().required && monitored_component(images.last().component@) {
        optional_workloads(images.drop_last()).push(images.last().component@)
    } else {
        optional_workloads(images.drop_last())
    }
}

/// The workloads the health monitor watches.
pub open spec fn health_targets(m: Option<ReleaseManifest>) -> Seq<Seq<char>> {
    match m {
        Some(m) => core_workloads() + optional_workloads(m.images@),
        None => core_workloads(),
    }
}

/// Sets up the health phase: marks it started with a placeholder pod record and
/// returns the workloads to monitor.
pub fn start_health_phase(app: &mut App) -> (names: Vec<String>)
    ensures
        names@.map_values(|s: String| s@) == health_targets(old(app).manifest),
        final(app).pod_statuses@.len() == old(app).pod_statuses@.len() + 1,
        final(app).pod_statuses@.drop_last() == old(app).pod_statuses@,
        final(app).pod_statuses@.last().name@ == "(initializing)"@,
        !final(app).pod_statuses@.last().ready,
        *final(app) == (App { pod_statuses: final(app).pod_statuses, ..*old(app) }),
{
    let mut names: Vec<String> = Vec::new();
    names.push(String::from_str("brain"));
    names.push(String::from_str("worker"));
    names.push(String::from_str("gateway"));
    names.push(String::from_str("ui"));
    names.push(String::from_str("nats"));
    names.push(String::from_str("qdrant"));
    assert(names@.map_values(|s: String| s@) =~= core_workloads());
    if let Some(m) = &app.manifest {
        let ghost imgs = m.images@;
        let mut i: usize = 0;
        while i < m.images.len()
            invariant
                imgs == m.images@,
                i <= imgs.len(),
                names@.map_values(|s: String| s@) == core_workloads() + optional_workloads(
                    imgs.take(i as int),
                ),
            decreases imgs.len() - i,
        {
            assert(imgs.take(i + 1).drop_last() =~= imgs.take(i as int));
            let img = &m.images[i];
            let c = img.component.as_str();
            if !img.required && (str_eq(c, "voice") || str_eq(c, "sysadmin") || str_eq(
                c,
                "ext-toolbox",
            ) || str_eq(c, "ext-browser")) {
                let ghost before = names@;
                names.push(img.component.clone());
                assert(names@.map_values(|s: String| s@) =~= before.map_values(|s: String| s@).push(
                    img.component@,
                ));
            }
            i += 1;
            assert(names@.map_values(|s: String| s@) =~= core_workloads() + optional_workloads(
                imgs.take(i as int),
            ));
        }
        assert(imgs.take(i as int) =~= imgs);
    }
    app.pod_statuses.push(
        PodHealth {
            name: String::from_str("(initializing)"),
            deployment: String::new(),
            ready: false,
            phase: String::from_str("Pending"),
            image: String::new(),
            restarts: 0,
            error: None,
            logs_tail: None,
        },
    );
    names
}

/// Background work the control loop must start.
#[derive(Debug)]
pub enum PhaseWork {
    Idle,
    Pull(Vec<String>),
    Deploy(Vec<DeployStep>),
    Health(Vec<String>),
}

/// Checks the auto-advance conditions of the current phase, and starts the
/// phase's background work the first time it is entered.
pub fn handle_auto_advance(app: &mut App, cli: &Cli) -> (work: PhaseWork)
    ensures
        old(app).phase == Phase::Secrets && old(app).current_secret_index >= old(app).secret_prompts@.len() ==> work is Idle && *final(app) == (App {
            phase: if old(app).collecting_feature_secrets {
                Phase::Confirm
            } else {
                Phase::Features
            },
            collecting_feature_secrets: false,
            ..*old(app)
        }),
        old(app).phase == Phase::Secrets && old(app).current_secret_index < old(app).secret_prompts@.len() ==> work is Idle && *final(app) == *old(app),
        old(app).phase == Phase::Pull && old(app).pull_statuses@.len() > 0 ==> work is Idle && *final(app) == (App {
            phase: if old(app).pull_progress.1 > 0 && old(app).pull_progress.0
                >= old(app).pull_progress.1 {
                Phase::Deploy
            } else {
                Phase::Pull
            },
            ..*old(app)
        }),
        old(app).phase == Phase::Pull && old(app).pull_statuses@.len() == 0 ==> (old(app).manifest matches Some(m) ==> {
            let images = pull_list(m.images@, cli.skip_extensions);
            &&& pending_table(final(app).pull_statuses@, images)
            &&& final(app).pull_progress == (0usize, images.len() as usize)
            &&& final(app).phase == if images.len() == 0 {
                Phase::Deploy
            } else {
                Phase::Pull
            }
            &&& images.len() > 0 ==> (work matches PhaseWork::Pull(v) && v@.map_values(
                |s: String| s@,
            ) == images)
            &&& images.len() == 0 ==> work is Idle
            &&& *final(app) == (App {
                phase: final(app).phase,
                pull_statuses: final(app).pull_statuses,
                pull_progress: final(app).pull_progress,
                ..*old(app)
            })
        }),
        old(app).phase == Phase::Pull && old(app).pull_statuses@.len() == 0 && old(app).manifest.is_none()
            ==> work is Idle && *final(app) == (App {
            phase: if old(app).pull_progress.1 > 0 && old(app).pull_progress.0
                >= old(app).pull_progress.1 {
                Phase::Deploy
            } else {
                Phase::Pull
            },
            ..*old(app)
        }),
        old(app).phase == Phase::Deploy && old(app).deploy_statuses@.len() == 0 && old(app).manifest.is_none()
            ==> work is Idle && *final(app) == *old(app),
        old(app).phase == Phase::Deploy && old(app).deploy_statuses@.len() == 0 ==> (old(app).manifest matches Some(m) ==> work matches PhaseWork::Deploy(steps) && steps@
            == planned_steps(m, cli.skip_extensions) && final(app).deploy_progress == (
            0usize,
            steps@.len() as usize,
        ) && pending_table(
            final(app).deploy_statuses@,
            steps@.map_values(|s: DeployStep| s.spec_label()),
        ) && *final(app) == (App {
            deploy_statuses: final(app).deploy_statuses,
            deploy_progress: final(app).deploy_progress,
            ..*old(app)
        })),
        old(app).phase == Phase::Deploy && old(app).deploy_statuses@.len() > 0 ==> work is Idle
            && *final(app) == *old(app),
        old(app).phase == Phase::Health && old(app).pod_statuses@.len() == 0 && !old(app).health_done ==> (work matches PhaseWork::Health(names) && names@.map_values(
            |s: String| s@,
        ) == health_targets(old(app).manifest) && final(app).phase == Phase::Health
            && final(app).pod_statuses@.len() == 1 && *final(app) == (App {
            pod_statuses: final(app).pod_statuses,
            ..*old(app)
        })),
        old(app).phase == Phase::Health && !(old(app).pod_statuses@.len() == 0 && !old(app).health_done) ==> work is Idle && *final(app) == (App {
            phase: if old(app).health_done && !old(app).health_failed {
                Phase::Complete
            } else {
                Phase::Health
            },
            ..*old(app)
        }),
        (old(app).phase == Phase::Preflight || old(app).phase == Phase::Features || old(app).phase
            == Phase::Confirm || old(app).phase == Phase::Complete) ==> work is Idle && *final(app)
            == *old(app),
{
    match app.phase {
        Phase::Secrets => {
            if app.current_secret_index >= app.secret_prompts.len() {
                if app.collecting_feature_secrets {
                    app.collecting_feature_secrets = false;
                    app.phase = Phase::Confirm;
                } else {
                    app.advance();
                }
            }
            PhaseWork::Idle
        },
        Phase::Pull => {
            let mut work = PhaseWork::Idle;
            if app.pull_statuses.len() == 0 {
                if let Some(images) = start_pull_phase(app, cli) {
                    if images.len() == 0 {
                        app.advance();
                    } else {
                        work = PhaseWork::Pull(images);
                    }
                }
            }
            let (done, total) = app.pull_progress;
            if total > 0 && done >= total {
                app.advance();
            }
            work
        },
        Phase::Deploy => {
            if app.deploy_statuses.len() == 0 {
                match start_deploy_phase(app, cli) {
                    Some(steps) => PhaseWork::Deploy(steps),
                    None => PhaseWork::Idle,
                }
            } else {
                PhaseWork::Idle
            }
        },
        Phase::Health => {
            if app.pod_statuses.len() == 0 && !app.health_done {
                let names = start_health_phase(app);
                PhaseWork::Health(names)
            } else {
                if app.health_done && !app.health_failed {
                    app.advance();
                }
                PhaseWork::Idle
            }
        },
        _ => PhaseWork::Idle,
    }
}

/// A preflight check entry: its label, and done or failed with message `err`.
pub open spec fn check_is(entry: (String, ItemStatus), label: Seq<char>, ok: bool, err: Seq<char>) -> bool {
    &&& entry.0@ == label
    &&& ok ==> entry.1 == ItemStatus::Done
    &&& !ok ==> (entry.1 matches ItemStatus::Failed(e) && e@ == err)
}

/// Records the preflight results, builds the prompts and feature selections
/// from the manifest when one was loaded, and moves on to Secrets.
pub fn record_preflight(
    app: &mut App,
    docker_output: Option<String>,
    cluster_version: Result<String, String>,
    manifest: Result<ReleaseManifest, String>,
    kubectl_found: bool,
)
    ensures
        final(app).preflight_checks@.len() == 4,
        check_is(
            final(app).preflight_checks@[0],
            match docker_output {
                Some(out) => "Docker CLI (v"@ + trim_of(out@) + ")"@,
                None => "Docker CLI"@,
            },
            docker_output.is_some(),
            "docker not found in PATH"@,
        ),
        check_is(
            final(app).preflight_checks@[1],
            match cluster_version {
                Ok(v) => "Kubernetes cluster (v"@ + v@ + ")"@,
                Err(_) => "Kubernetes cluster"@,
            },
            cluster_version.is_ok(),
            match cluster_version {
                Ok(_) => Seq::empty(),
                Err(e) => e@,
            },
        ),
        final(app).cluster_name@ == match cluster_version {
            Ok(v) => "k8s "@ + v@,
            Err(_) => "disconnected"@,
        },
        check_is(
            final(app).preflight_checks@[2],
            match manifest {
                Ok(m) => "Release manifest (v"@ + m.version@ + ")"@,
                Err(_) => "Release manifest"@,
            },
            manifest.is_ok(),
            match manifest {
                Ok(_) => Seq::empty(),
                Err(e) => e@,
            },
        ),
        check_is(final(app).preflight_checks@[3], "kubectl CLI"@, kubectl_found, "kubectl not found"@),
        manifest matches Ok(m) ==> {
            &&& final(app).manifest == Some(m)
            &&& final(app).manifest_version@ == m.version@
            &&& final(app).secret_prompts@.len() == m.required_secrets@.len()
            &&& forall|i: int|
                0 <= i < m.required_secrets@.len() ==> prompt_from_secret(
                    #[trigger] final(app).secret_prompts@[i],
                    m.required_secrets@[i],
                )
            &&& final(app).config.features@.len() == m.optional_features@.len()
            &&& forall|i: int|
                0 <= i < m.optional_features@.len() ==> selection_from_feature(
                    #[trigger] final(app).config.features@[i],
                    m.optional_features@[i],
                )
        },
        manifest.is_err() ==> final(app).manifest == old(app).manifest && final(app).secret_prompts
            == old(app).secret_prompts && final(app).config == old(app).config
            && final(app).manifest_version == old(app).manifest_version,
        *final(app) == (App {
            phase: match old(app).phase.spec_next() {
                Some(p) => p,
                None => old(app).phase,
            },
            preflight_checks: final(app).preflight_checks,
            cluster_name: final(app).cluster_name,
            secret_prompts: final(app).secret_prompts,
            config: InstallConfig { features: final(app).config.features, ..old(app).config },
            manifest_version: final(app).manifest_version,
            manifest: final(app).manifest,
            ..*old(app)
        }),
{
    let mut checks: Vec<(String, ItemStatus)> = Vec::new();
    match docker_output {
        Some(out) => {
            let version = trimmed(out.as_str());
            let label = join2(join2("Docker CLI (v", version.as_str()).as_str(), ")");
            checks.push((label, ItemStatus::Done));
        },
        None => {
            checks.push(
                (
                    String::from_str("Docker CLI"),
                    ItemStatus::Failed(String::from_str("docker not found in PATH")),
                ),
            );
        },
    }
    match cluster_version {
        Ok(v) => {
            app.cluster_name = join2("k8s ", v.as_str());
            let label = join2(join2("Kubernetes cluster (v", v.as_str()).as_str(), ")");
            checks.push((label, ItemStatus::Done));
        },
        Err(e) => {
            app.cluster_name = String::from_str("disconnected");
            checks.push((String::from_str("Kubernetes cluster"), ItemStatus::Failed(e)));
        },
    }
    match manifest {
        Ok(m) => {
            app.manifest_version = m.version.clone();
            let label = join2(join2("Release manifest (v", m.version.as_str()).as_str(), ")");
            checks.push((label, ItemStatus::Done));
            build_secret_prompts(app, &m);
            build_feature_selections(app, &m);
            app.manifest = Some(m);
        },
        Err(e) => {
            checks.push((String::from_str("Release manifest"), ItemStatus::Failed(e)));
        },
    }
    if kubectl_found {
        checks.push((String::from_str("kubectl CLI"), ItemStatus::Done));
    } else {
        checks.push(
            (String::from_str("kubectl CLI"), ItemStatus::Failed(String::from_str("kubectl not found"))),
        );
    }
    app.preflight_checks = checks;
    app.advance();
}

/// The done-counter of a deploy table of `table_len` steps after the step
/// reports with the given indices were applied, one at a time, as
/// `handle_async_msg` applies them.
pub open spec fn done_after_reports(done: usize, table_len: nat, indices: Seq<usize>) -> usize
    decreases indices.len(),
{
    if indices.len() == 0 {
        done
    } else {
        let d = done_after_reports(done, table_len, indices.drop_last());
        if (indices.last() as nat) < table_len {
            bump(d)
        } else {
            d
        }
    }
}

/// The deploy sequence reports steps 0, 1, ..., in order: after the first `k`
/// of `n` reports, starting from zero, the done-counter is `k`, so it reaches
/// the total exactly when every step has reported.
pub proof fn lemma_done_counter_reaches_total(n: usize, k: nat)
    requires
        k <= n,
    ensures
        done_after_reports(0, n as nat, Seq::new(k, |i: int| i as usize)) == k,
        (done_after_reports(0, n as nat, Seq::new(k, |i: int| i as usize)) == n) == (k == n),
    decreases k,
{
    if k > 0 {
        lemma_done_counter_reaches_total(n, (k - 1) as nat);
        let s = Seq::new(k, |i: int| i as usize);
        assert(s.drop_last() =~= Seq::new((k - 1) as nat, |i: int| i as usize));
        assert(s.last() == (k - 1) as usize);
    }
}

} // verus!
