use bakerst_install::manifest::default_manifest;
use bakerst_install::templates::{generate_auth_token, mask_secret, render, truncate_str};

#[test]
fn render_replaces_variables() {
    let vars = vec![("NAME".to_string(), "bakerst".to_string()), ("IMAGE".to_string(), "brain:1.0".to_string())];
    let result = render("namespace: {{NAME}}, image: {{IMAGE}}", &vars);
    assert_eq!(result, "namespace: bakerst, image: brain:1.0");
}

#[test]
fn render_leaves_unknown_variables() {
    let vars = vec![("NAME".to_string(), "bakerst".to_string())];
    let result = render("{{NAME}} and {{OTHER}}", &vars);
    assert_eq!(result, "bakerst and {{OTHER}}");
}

#[test]
fn render_replaces_every_occurrence() {
    let vars = vec![("A".to_string(), "x".to_string())];
    assert_eq!(render("{{A}}{{A}}-{{A}}", &vars), "xx-x");
    assert_eq!(render("", &vars), "");
    assert_eq!(render("{{A}", &vars), "{{A}");
}

#[test]
fn mask_secret_shows_last_4() {
    assert_eq!(mask_secret("sk-ant-oat01-abcdefXYZ"), "****fXYZ");
}

#[test]
fn mask_secret_short_value() {
    assert_eq!(mask_secret("abc"), "****");
}

#[test]
fn mask_secret_edges() {
    assert_eq!(mask_secret(""), "****");
    assert_eq!(mask_secret("abcd"), "****");
    assert_eq!(mask_secret("abcde"), "****bcde");
}

#[test]
fn generate_auth_token_is_64_hex_chars() {
    let token = generate_auth_token();
    assert_eq!(token.len(), 64);
    assert!(token.chars().all(|c| c.is_ascii_hexdigit()));
}

#[test]
fn auth_tokens_are_lower_case_hex() {
    let token = generate_auth_token();
    assert!(token.chars().all(|c| c.is_ascii_digit() || ('a'..='f').contains(&c)));
}

#[test]
fn truncate_keeps_short_and_cuts_long() {
    assert_eq!(truncate_str("short", 10), "short");
    assert_eq!(truncate_str("exactly10!", 10), "exactly10!");
    assert_eq!(truncate_str("a long pod name here", 10), "a long ...");
    assert_eq!(truncate_str("abcdef", 2), "...");
}

#[test]
fn default_manifest_has_required_images() {
    let m = default_manifest();
    assert_eq!(m.version, "local");
    let required: Vec<_> = m.images.iter().filter(|i| i.required).collect();
    assert_eq!(required.len(), 4); // brain, worker, ui, gateway
}

#[test]
fn default_manifest_contents() {
    let m = default_manifest();
    assert_eq!(m.images[0].image, "bakerst-brain:latest");
    assert_eq!(m.images[6].component, "ext-toolbox");
    assert_eq!(m.required_secrets.len(), 3);
    assert_eq!(m.required_secrets[0].key, "ANTHROPIC_OAUTH_TOKEN");
    assert!(m.required_secrets[0].required);
    assert_eq!(m.optional_features.len(), 5);
    assert_eq!(m.optional_features[3].id, "browser");
    assert!(m.optional_features[3].secrets.is_empty());
    assert_eq!(m.defaults.namespace, "bakerst");
    assert!(!m.date.is_empty());
}
