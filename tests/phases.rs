use bakerst_install::app::{App, Phase};

#[test]
fn phase_advances_through_all_stages() {
    let mut phase = Phase::Preflight;
    let mut count = 0;
    while let Some(next) = phase.next() {
        phase = next;
        count += 1;
    }
    assert_eq!(count, 7);
    assert_eq!(phase, Phase::Complete);
}

#[test]
fn complete_has_no_next() {
    assert_eq!(Phase::Complete.next(), None);
}

#[test]
fn phase_index_is_sequential() {
    assert_eq!(Phase::Preflight.index(), 0);
    assert_eq!(Phase::Complete.index(), 7);
}

#[test]
fn app_advance_works() {
    let mut app = App::new("bakerst".into());
    assert_eq!(app.phase, Phase::Preflight);
    assert!(app.advance());
    assert_eq!(app.phase, Phase::Secrets);
}

#[test]
fn app_back_to_secrets_only_from_confirm() {
    let mut app = App::new("bakerst".into());
    app.phase = Phase::Confirm;
    app.back_to_secrets();
    assert_eq!(app.phase, Phase::Secrets);
}

#[test]
fn app_back_to_secrets_noop_from_other_phases() {
    let mut app = App::new("bakerst".into());
    app.phase = Phase::Deploy;
    app.back_to_secrets();
    assert_eq!(app.phase, Phase::Deploy);
}

#[test]
fn advance_follows_order_and_stops_at_complete() {
    let order = [
        Phase::Preflight,
        Phase::Secrets,
        Phase::Features,
        Phase::Confirm,
        Phase::Pull,
        Phase::Deploy,
        Phase::Health,
        Phase::Complete,
    ];
    let mut app = App::new("ns".into());
    for (i, p) in order.iter().enumerate() {
        assert_eq!(app.phase, *p);
        assert_eq!(p.index(), i);
        let moved = app.advance();
        assert_eq!(moved, *p != Phase::Complete);
    }
    assert_eq!(app.phase, Phase::Complete);
    assert!(!app.advance());
    assert_eq!(app.phase, Phase::Complete);
    assert_eq!(Phase::total(), 8);
}

#[test]
fn back_to_secrets_resets_cursor_and_input() {
    let mut app = App::new("ns".into());
    app.phase = Phase::Confirm;
    app.current_secret_index = 3;
    app.secret_input = "partial".into();
    app.back_to_secrets();
    assert_eq!(app.phase, Phase::Secrets);
    assert_eq!(app.current_secret_index, 0);
    assert_eq!(app.secret_input, "");

    for p in [Phase::Preflight, Phase::Secrets, Phase::Features, Phase::Pull, Phase::Health, Phase::Complete] {
        let mut app = App::new("ns".into());
        app.phase = p;
        app.current_secret_index = 2;
        app.secret_input = "x".into();
        app.back_to_secrets();
        assert_eq!(app.phase, p);
        assert_eq!(app.current_secret_index, 2);
        assert_eq!(app.secret_input, "x");
    }
}

#[test]
fn new_app_defaults() {
    let app = App::new("bakerst".into());
    assert_eq!(app.config.namespace, "bakerst");
    assert_eq!(app.config.agent_name, "Baker");
    assert!(app.config.auth_token.is_empty());
    assert!(app.manifest.is_none());
    assert_eq!(app.pull_progress, (0, 0));
}

#[test]
fn phase_labels() {
    assert_eq!(Phase::Pull.label(), "Pull Images");
    assert_eq!(Phase::Health.label(), "Health Check");
    assert_eq!(Phase::Preflight.label(), "Preflight");
}
