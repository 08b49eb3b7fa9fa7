use nh_core::command::{Command, RunError};
use nh_core::exit::{ExitError, ExitOutcome};
use nh_core::home::{
    activation_target, candidate_name, configuration_exists, configuration_query, default_name,
    home_info, HomeRebuildError,
};
use nh_core::rebuild::{rebuild_step, RebuildAction, RebuildContext, RebuildEvent, RebuildState};

fn ctx(configuration: Option<&str>, ask: bool, dry: bool) -> RebuildContext {
    RebuildContext {
        flakeref: ".".to_string(),
        configuration: configuration.map(|c| c.to_string()),
        username: "bob".to_string(),
        hostname: "box".to_string(),
        ask,
        dry,
        out_link: "/tmp/nh/home-result-1".to_string(),
    }
}

fn answer(text: &str) -> RebuildEvent {
    RebuildEvent::Ran(Ok(Some(text.to_string())))
}

fn step(c: &RebuildContext, s: RebuildState, e: RebuildEvent) -> (RebuildState, RebuildAction) {
    rebuild_step(c, s, e).unwrap()
}

fn run_args(a: &RebuildAction) -> Vec<String> {
    match a {
        RebuildAction::Run(Command { args, .. }) | RebuildAction::Query(Command { args, .. }) => {
            args.clone()
        }
        other => panic!("unexpected {other:?}"),
    }
}

#[test]
fn exists_reads_exact_true_and_false() {
    assert_eq!(configuration_exists("true".to_string()), Ok(true));
    assert_eq!(configuration_exists("false".to_string()), Ok(false));
}

#[test]
fn exists_rejects_other_text() {
    for text in ["", "1", "True", "true\nfalse", " true"] {
        assert_eq!(
            configuration_exists(text.to_string()),
            Err(HomeRebuildError::Unparseable(text.to_string()))
        );
    }
}

#[test]
fn default_name_prefers_user_at_host() {
    let u = "alice".to_string();
    let h = "host1".to_string();
    assert_eq!(candidate_name(&u, &h), "alice@host1");
    assert_eq!(default_name(&u, &h, true), "alice@host1");
    assert_eq!(default_name(&u, &h, false), "alice");
}

#[test]
fn query_command_shape() {
    let c = configuration_query(&".".to_string(), &"bob@box".to_string());
    assert!(c.capture);
    assert!(!c.dry);
    assert_eq!(c.args, vec!["nix", "eval", ".#homeConfigurations", "--apply", " x: x ? \"bob@box\" "]);
}

#[test]
fn target_attribute() {
    let t = activation_target(&".".to_string(), &"bob".to_string());
    assert_eq!(t, ".#homeConfigurations.bob.config.home.activationPackage");
}

#[test]
fn info_succeeds() {
    assert_eq!(home_info(), Ok(()));
}

#[test]
fn absent_explicit_configuration_never_builds() {
    let c = ctx(Some("work"), false, false);
    let (s, a) = step(&c, RebuildState::Start, RebuildEvent::Start);
    assert_eq!(s, RebuildState::CheckExplicit);
    assert_eq!(run_args(&a)[4], " x: x ? \"work\" ");
    let r = rebuild_step(&c, s, answer("false"));
    assert_eq!(r.unwrap_err(), HomeRebuildError::ConfigName("work".to_string()));
}

#[test]
fn present_explicit_configuration_builds_it() {
    let c = ctx(Some("work"), false, false);
    let (s, a) = step(&c, RebuildState::CheckExplicit, answer("true"));
    assert_eq!(s, RebuildState::Building);
    match a {
        RebuildAction::Build(b) => {
            assert_eq!(b.flakeref, ".#homeConfigurations.work.config.home.activationPackage");
            assert_eq!(b.extra_args, vec!["--out-link", "/tmp/nh/home-result-1"]);
            assert!(!b.nom);
        }
        other => panic!("unexpected {other:?}"),
    }
}

#[test]
fn end_to_end_default_falls_back_to_user() {
    let c = ctx(None, false, false);
    let (s, a) = step(&c, RebuildState::Start, RebuildEvent::Start);
    assert_eq!(s, RebuildState::CheckDefault);
    assert_eq!(run_args(&a)[4], " x: x ? \"bob@box\" ");
    let (s, a) = step(&c, s, answer("false"));
    assert_eq!(s, RebuildState::Building);
    match a {
        RebuildAction::Build(b) => {
            assert_eq!(b.flakeref, ".#homeConfigurations.bob.config.home.activationPackage")
        }
        other => panic!("unexpected {other:?}"),
    }
    let (s, a) = step(&c, s, RebuildEvent::Built(Ok(())));
    assert_eq!(s, RebuildState::Diffing);
    assert_eq!(
        run_args(&a),
        vec!["nvd", "diff", "/nix/var/nix/profiles/per-user/bob/home-manager", "/tmp/nh/home-result-1"]
    );
    let (s, a) = step(&c, s, RebuildEvent::Ran(Ok(None)));
    assert_eq!(s, RebuildState::Activating);
    assert_eq!(run_args(&a), vec!["/tmp/nh/home-result-1/activate"]);
    let (s, a) = step(&c, s, RebuildEvent::Ran(Ok(None)));
    assert_eq!(s, RebuildState::Done);
    assert!(matches!(a, RebuildAction::Finish));
}

#[test]
fn default_uses_user_at_host_when_present() {
    let c = ctx(None, false, false);
    let (_, a) = step(&c, RebuildState::CheckDefault, answer("true"));
    match a {
        RebuildAction::Build(b) => {
            assert_eq!(b.flakeref, ".#homeConfigurations.bob@box.config.home.activationPackage")
        }
        other => panic!("unexpected {other:?}"),
    }
}

#[test]
fn declined_prompt_never_activates() {
    let c = ctx(None, true, false);
    let (s, a) = step(&c, RebuildState::Diffing, RebuildEvent::Ran(Ok(None)));
    assert_eq!(s, RebuildState::Confirming);
    assert!(matches!(a, RebuildAction::Prompt));
    let r = rebuild_step(&c, s, RebuildEvent::Answered(false));
    assert_eq!(r.unwrap_err(), HomeRebuildError::NoConfirm);
}

#[test]
fn accepted_prompt_activates() {
    let c = ctx(None, true, false);
    let (s, a) = step(&c, RebuildState::Confirming, RebuildEvent::Answered(true));
    assert_eq!(s, RebuildState::Activating);
    assert_eq!(run_args(&a), vec!["/tmp/nh/home-result-1/activate"]);
}

#[test]
fn failed_build_stops_the_rebuild() {
    let c = ctx(None, true, false);
    let e = ExitError(ExitOutcome::Exited(1));
    let r = rebuild_step(&c, RebuildState::Building, RebuildEvent::Built(Err(e)));
    assert_eq!(r.unwrap_err(), HomeRebuildError::Build(e));
}

#[test]
fn failed_command_is_passed_on() {
    let c = ctx(None, false, false);
    let e = RunError::Exit(ExitError(ExitOutcome::Signaled(2)));
    let r = rebuild_step(&c, RebuildState::Activating, RebuildEvent::Ran(Err(e)));
    let expected = HomeRebuildError::Run(RunError::Exit(ExitError(ExitOutcome::Signaled(2))));
    assert_eq!(r.unwrap_err(), expected);
}

#[test]
fn dry_run_hands_over_a_dry_build() {
    let c = ctx(None, false, true);
    let (s, a) = step(&c, RebuildState::CheckDefault, answer("false"));
    assert_eq!(s, RebuildState::Building);
    match a {
        RebuildAction::Build(b) => {
            assert!(b.dry);
            assert_eq!(b.flakeref, ".#homeConfigurations.bob.config.home.activationPackage");
        }
        other => panic!("unexpected {other:?}"),
    }
    let (s, a) = step(&c, s, RebuildEvent::Built(Ok(())));
    assert_eq!(s, RebuildState::Diffing);
    match a {
        RebuildAction::Run(cmd) => assert!(cmd.dry),
        other => panic!("unexpected {other:?}"),
    }
}

#[test]
fn failed_comparison_is_reported_like_a_failed_build() {
    let c = ctx(None, true, false);
    let x = ExitError(ExitOutcome::Exited(3));
    let r = rebuild_step(&c, RebuildState::Diffing, RebuildEvent::Ran(Err(RunError::Exit(x))));
    assert_eq!(r.unwrap_err(), HomeRebuildError::Build(x));
    let spawn = RunError::Spawn("nvd: not found".to_string());
    let r = rebuild_step(&c, RebuildState::Diffing, RebuildEvent::Ran(Err(spawn)));
    assert_eq!(r.unwrap_err(), HomeRebuildError::Run(RunError::Spawn("nvd: not found".to_string())));
}

#[test]
fn unparseable_answer_is_an_error() {
    let c = ctx(None, false, false);
    let r = rebuild_step(&c, RebuildState::CheckDefault, answer("error: oops"));
    assert_eq!(r.unwrap_err(), HomeRebuildError::Unparseable("error: oops".to_string()));
}

#[test]
fn out_of_order_event_is_an_error() {
    let c = ctx(None, false, false);
    let r = rebuild_step(&c, RebuildState::Done, RebuildEvent::Answered(true));
    assert_eq!(r.unwrap_err(), HomeRebuildError::OutOfOrder);
}
