use vstd::prelude::*;
use vstd::string::StringExecFns;
use crate::command::{Command, CommandView, RunError};
use crate::exit::ExitError;
use crate::home::{
    HomeRebuildError, activation_target, answer_spec, candidate_name, candidate_spec,
    configuration_exists, configuration_query, query_spec, target_spec,
};
use crate::pipeline::{BuildCommand, BuildView};

verus! {

/// What a rebuild works from, all gathered by the caller before it starts.
#[derive(Debug)]
pub struct RebuildContext {
    /// The source of the configurations.
    pub flakeref: String,
    /// A configuration named explicitly, if any.
    pub configuration: Option<String>,
    /// The current user.
    pub username: String,
    /// The local host.
    pub hostname: String,
    /// Ask before activating.
    pub ask: bool,
    /// Log the commands without running them.
    pub dry: bool,
    /// A fresh path that the build result is linked to.
    pub out_link: String,
}

/// Where a rebuild stands.
#[derive(Clone, Copy, Debug, PartialEq, Eq, Structural)]
pub enum RebuildState {
    Start,
    /// Waiting for the evaluator on the configuration that was named.
    CheckExplicit,
    /// Waiting for the evaluator on `user@host`.
    CheckDefault,
    Building,
    Diffing,
    Confirming,
    Activating,
    Done,
}

/// What the driver reports back.
#[derive(Debug)]
pub enum RebuildEvent {
    Start,
    /// A command's result.
    Ran(Result<Option<String>, RunError>),
    /// The build's result.
    Built(Result<(), ExitError>),
    /// The user's answer to the confirmation prompt.
    Answered(bool),
}

/// What the driver does next.
#[derive(Debug)]
pub enum RebuildAction {
    /// Run this command with its output captured and report the text.
    Query(Command),
    /// Run this build and report how it went.
    Build(BuildCommand),
    /// Run this command and report how it went.
    Run(Command),
    /// Ask the user whether to apply the configuration (default: no).
    Prompt,
    /// The rebuild is complete.
    Finish,
}

pub ghost enum ActionView {
    Query(CommandView),
    Build(BuildView),
    Run(CommandView),
    Prompt,
    Finish,
}

impl View for RebuildAction {
    type V = ActionView;

    open spec fn view(&self) -> ActionView {
        match self {
            RebuildAction::Query(c) => ActionView::Query(c@),
            RebuildAction::Build(b) => ActionView::Build(b@),
            RebuildAction::Run(c) => ActionView::Run(c@),
            RebuildAction::Prompt => ActionView::Prompt,
            RebuildAction::Finish => ActionView::Finish,
        }
    }
}

/// A step's result with the action seen as plain values.
pub open spec fn step_view(r: Result<(RebuildState, RebuildAction), HomeRebuildError>) -> Result<
    (RebuildState, ActionView),
    HomeRebuildError,
> {
    match r {
        Ok((s, a)) => Ok((s, a@)),
        Err(e) => Err(e),
    }
}

/// The build of configuration `name` into the out-link.
pub open spec fn build_spec(ctx: RebuildContext, name: Seq<char>) -> BuildView {
    BuildView {
        message: Some("Building configuration"@),
        flakeref: target_spec(ctx.flakeref@, name),
        extra_args: seq!["--out-link"@, ctx.out_link@],
        nom: false,
        dry: ctx.dry,
    }
}

/// The comparison of the current generation with the new result.
pub open spec fn diff_spec(ctx: RebuildContext) -> CommandView {
    CommandView {
        dry: ctx.dry,
        message: Some("Comparing changes"@),
        capture: false,
        args: seq![
            "nvd"@,
            "diff"@,
            "/nix/var/nix/profiles/per-user/"@ + ctx.username@ + "/home-manager"@,
            ctx.out_link@,
        ],
    }
}

/// The activation of the new result.
pub open spec fn activate_spec(ctx: RebuildContext) -> CommandView {
    CommandView {
        dry: ctx.dry,
        message: Some("Activating"@),
        capture: false,
        args: seq![ctx.out_link@ + "/activate"@],
    }
}

/// Once configuration `name` is settled: build it (in a dry run the build
/// is only logged).
pub open spec fn resolved_spec(ctx: RebuildContext, name: Seq<char>) -> (RebuildState, ActionView) {
    (RebuildState::Building, ActionView::Build(build_spec(ctx, name)))
}

/// After the comparison: ask when asked to, else activate.
pub open spec fn compared_spec(ctx: RebuildContext) -> (RebuildState, ActionView) {
    if ctx.ask {
        (RebuildState::Confirming, ActionView::Prompt)
    } else {
        (RebuildState::Activating, ActionView::Run(activate_spec(ctx)))
    }
}

/// The rebuild's transitions: from a state and an event, the next state
/// and action, or the error that ends the rebuild.
pub open spec fn rebuild_spec(ctx: RebuildContext, state: RebuildState, event: RebuildEvent) -> Result<
    (RebuildState, ActionView),
    HomeRebuildError,
> {
    match (state, event) {
        (RebuildState::Start, RebuildEvent::Start) => match ctx.configuration {
            Some(c) => Ok(
                (RebuildState::CheckExplicit, ActionView::Query(query_spec(ctx.flakeref@, c@))),
            ),
            None => Ok(
                (
                    RebuildState::CheckDefault,
                    ActionView::Query(
                        query_spec(ctx.flakeref@, candidate_spec(ctx.username@, ctx.hostname@)),
                    ),
                ),
            ),
        },
        (RebuildState::CheckExplicit, RebuildEvent::Ran(Ok(Some(t)))) => match ctx.configuration {
            Some(c) => match answer_spec(t@) {
                Some(true) => Ok(resolved_spec(ctx, c@)),
                Some(false) => Err(HomeRebuildError::ConfigName(c)),
                None => Err(HomeRebuildError::Unparseable(t)),
            },
            None => Err(HomeRebuildError::OutOfOrder),
        },
        (RebuildState::CheckDefault, RebuildEvent::Ran(Ok(Some(t)))) => match answer_spec(t@) {
            Some(true) => Ok(resolved_spec(ctx, candidate_spec(ctx.username@, ctx.hostname@))),
            Some(false) => Ok(resolved_spec(ctx, ctx.username@)),
            None => Err(HomeRebuildError::Unparseable(t)),
        },
        (RebuildState::Building, RebuildEvent::Built(Ok(()))) => Ok(
            (RebuildState::Diffing, ActionView::Run(diff_spec(ctx))),
        ),
        (RebuildState::Building, RebuildEvent::Built(Err(e))) => Err(HomeRebuildError::Build(e)),
        (RebuildState::Diffing, RebuildEvent::Ran(Ok(_))) => Ok(compared_spec(ctx)),
        (RebuildState::Confirming, RebuildEvent::Answered(yes)) => if yes {
            Ok((RebuildState::Activating, ActionView::Run(activate_spec(ctx))))
        } else {
            Err(HomeRebuildError::NoConfirm)
        },
        (RebuildState::Activating, RebuildEvent::Ran(Ok(_))) => Ok(
            (RebuildState::Done, ActionView::Finish),
        ),
        (RebuildState::CheckExplicit, RebuildEvent::Ran(Err(e))) => Err(HomeRebuildError::Run(e)),
        (RebuildState::CheckDefault, RebuildEvent::Ran(Err(e))) => Err(HomeRebuildError::Run(e)),
        (RebuildState::Diffing, RebuildEvent::Ran(Err(e))) => match e {
            RunError::Exit(x) => Err(HomeRebuildError::Build(x)),
            _ => Err(HomeRebuildError::Run(e)),
        },
        (RebuildState::Activating, RebuildEvent::Ran(Err(e))) => Err(HomeRebuildError::Run(e)),
        _ => Err(HomeRebuildError::OutOfOrder),
    }
}

/// The build of configuration `name` into the out-link.
pub fn build_command(ctx: &RebuildContext, name: &String) -> (r: BuildCommand)
    ensures
        r@ == build_spec(*ctx, name@),
{
    let mut extra_args: Vec<String> = Vec::new();
    extra_args.push(String::from_str("--out-link"));
    extra_args.push(ctx.out_link.clone());
    let r = BuildCommand {
        message: Some(String::from_str("Building configuration")),
        flakeref: activation_target(&ctx.flakeref, name),
        extra_args,
        nom: false,
        dry: ctx.dry,
    };
    assert(r@.extra_args =~= build_spec(*ctx, name@).extra_args);
    r
}

/// The comparison of the current generation with the new result.
pub fn diff_command(ctx: &RebuildContext) -> (r: Command)
    ensures
        r@ == diff_spec(*ctx),
{
    let previous = String::from_str("/nix/var/nix/profiles/per-user/").concat(
        ctx.username.as_str(),
    ).concat("/home-manager");
    let mut args: Vec<String> = Vec::new();
    args.push(String::from_str("nvd"));
    args.push(String::from_str("diff"));
    args.push(previous);
    args.push(ctx.out_link.clone());
    let r = Command {
        dry: ctx.dry,
        message: Some(String::from_str("Comparing changes")),
        capture: false,
        args,
    };
    assert(r@.args =~= diff_spec(*ctx).args);
    r
}

/// The activation of the new result.
pub fn activate_command(ctx: &RebuildContext) -> (r: Command)
    ensures
        r@ == activate_spec(*ctx),
{
    let mut args: Vec<String> = Vec::new();
    args.push(ctx.out_link.clone().concat("/activate"));
    let r = Command { dry: ctx.dry, message: Some(String::from_str("Activating")), capture: false, args };
    assert(r@.args =~= activate_spec(*ctx).args);
    r
}

fn resolved(ctx: &RebuildContext, name: &String) -> (r: (RebuildState, RebuildAction))
    ensures
        (r.0, r.1@) == resolved_spec(*ctx, name@),
{
    (RebuildState::Building, RebuildAction::Build(build_command(ctx, name)))
}

fn compared(ctx: &RebuildContext) -> (r: (RebuildState, RebuildAction))
    ensures
        (r.0, r.1@) == compared_spec(*ctx),
{
    if ctx.ask {
        (RebuildState::Confirming, RebuildAction::Prompt)
    } else {
        (RebuildState::Activating, RebuildAction::Run(activate_command(ctx)))
    }
}

/// One transition of the rebuild: resolve the configuration, build it,
/// compare, confirm when asked to, activate. The first failure ends it.
pub fn rebuild_step(ctx: &RebuildContext, state: RebuildState, event: RebuildEvent) -> (r: Result<
    (RebuildState, RebuildAction),
    HomeRebuildError,
>)
    ensures
        step_view(r) == rebuild_spec(*ctx, state, event),
{
    match (state, event) {
        (RebuildState::Start, RebuildEvent::Start) => match &ctx.configuration {
            Some(c) => Ok(
                (
                    RebuildState::CheckExplicit,
                    RebuildAction::Query(configuration_query(&ctx.flakeref, c)),
                ),
            ),
            None => {
                let candidate = candidate_name(&ctx.username, &ctx.hostname);
                Ok(
                    (
                        RebuildState::CheckDefault,
                        RebuildAction::Query(configuration_query(&ctx.flakeref, &candidate)),
                    ),
                )
            },
        },
        (RebuildState::CheckExplicit, RebuildEvent::Ran(Ok(Some(t)))) => match &ctx.configuration {
            Some(c) => match configuration_exists(t) {
                Ok(true) => Ok(resolved(ctx, c)),
                Ok(false) => Err(HomeRebuildError::ConfigName(c.clone())),
                Err(e) => Err(e),
            },
            None => Err(HomeRebuildError::OutOfOrder),
        },
        (RebuildState::CheckDefault, RebuildEvent::Ran(Ok(Some(t)))) => match configuration_exists(t) {
            Ok(true) => Ok(resolved(ctx, &candidate_name(&ctx.username, &ctx.hostname))),
            Ok(false) => Ok(resolved(ctx, &ctx.username)),
            Err(e) => Err(e),
        },
        (RebuildState::Building, RebuildEvent::Built(Ok(()))) => Ok(
            (RebuildState::Diffing, RebuildAction::Run(diff_command(ctx))),
        ),
        (RebuildState::Building, RebuildEvent::Built(Err(e))) => Err(HomeRebuildError::Build(e)),
        (RebuildState::Diffing, RebuildEvent::Ran(Ok(_))) => Ok(compared(ctx)),
        (RebuildState::Confirming, RebuildEvent::Answered(yes)) => if yes {
            Ok((RebuildState::Activating, RebuildAction::Run(activate_command(ctx))))
        } else {
            Err(HomeRebuildError::NoConfirm)
        },
        (RebuildState::Activating, RebuildEvent::Ran(Ok(_))) => Ok(
            (RebuildState::Done, RebuildAction::Finish),
        ),
        (RebuildState::CheckExplicit, RebuildEvent::Ran(Err(e))) => Err(HomeRebuildError::Run(e)),
        (RebuildState::CheckDefault, RebuildEvent::Ran(Err(e))) => Err(HomeRebuildError::Run(e)),
        (RebuildState::Diffing, RebuildEvent::Ran(Err(e))) => match e {
            RunError::Exit(x) => Err(HomeRebuildError::Build(x)),
            _ => Err(HomeRebuildError::Run(e)),
        },
        (RebuildState::Activating, RebuildEvent::Ran(Err(e))) => Err(HomeRebuildError::Run(e)),
        _ => Err(HomeRebuildError::OutOfOrder),
    }
}

/// The states and actions a rebuild goes through from `state` on a
/// sequence of events; it stops at the first error.
pub open spec fn steps(ctx: RebuildContext, state: RebuildState, events: Seq<RebuildEvent>) -> Seq<
    (RebuildState, ActionView),
>
    decreases events.len(),
{
    if events.len() == 0 {
        seq![]
    } else {
        match rebuild_spec(ctx, state, events[0]) {
            Ok((s, a)) => seq![(s, a)] + steps(ctx, s, events.drop_first()),
            Err(_) => seq![],
        }
    }
}

/// When the configuration named explicitly is absent, the rebuild stops
/// after the evaluator's answer: its only action is the query, so nothing
/// is built, compared or activated, and the error names the configuration.
pub proof fn lemma_absent_configuration_stops(ctx: RebuildContext, events: Seq<RebuildEvent>)
    requires
        ctx.configuration is Some,
        events.len() >= 2,
        events[0] == RebuildEvent::Start,
        events[1] matches RebuildEvent::Ran(Ok(Some(t))) && answer_spec(t@) == Some(false),
    ensures
        steps(ctx, RebuildState::Start, events) == seq![
            (
                RebuildState::CheckExplicit,
                ActionView::Query(query_spec(ctx.flakeref@, ctx.configuration->0@)),
            ),
        ],
        rebuild_spec(ctx, RebuildState::CheckExplicit, events[1]) == Err::<
            (RebuildState, ActionView),
            HomeRebuildError,
        >(HomeRebuildError::ConfigName(ctx.configuration->0)),
{
    let rest = events.drop_first();
    assert(rest[0] == events[1]);
    assert(steps(ctx, RebuildState::CheckExplicit, rest) == Seq::<(RebuildState, ActionView)>::empty());
    assert(steps(ctx, RebuildState::Start, events) =~= seq![
        (
            RebuildState::CheckExplicit,
            ActionView::Query(query_spec(ctx.flakeref@, ctx.configuration->0@)),
        ),
    ]);
}

/// With confirmation asked for, a declined prompt ends the rebuild: after
/// the comparison the only action is the prompt, and activation never runs.
pub proof fn lemma_declined_never_activates(ctx: RebuildContext, events: Seq<RebuildEvent>)
    requires
        ctx.ask,
        events.len() >= 2,
        events[0] matches RebuildEvent::Ran(Ok(_)),
        events[1] == RebuildEvent::Answered(false),
    ensures
        steps(ctx, RebuildState::Diffing, events) == seq![(RebuildState::Confirming, ActionView::Prompt)],
        rebuild_spec(ctx, RebuildState::Confirming, events[1]) == Err::<
            (RebuildState, ActionView),
            HomeRebuildError,
        >(HomeRebuildError::NoConfirm),
{
    let rest = events.drop_first();
    assert(rest[0] == events[1]);
    assert(steps(ctx, RebuildState::Confirming, rest) == Seq::<(RebuildState, ActionView)>::empty());
    assert(steps(ctx, RebuildState::Diffing, events) =~= seq![
        (RebuildState::Confirming, ActionView::Prompt),
    ]);
}

/// With confirmation asked for, activation is entered only from the prompt,
/// and only on a yes.
pub proof fn lemma_activation_needs_yes(ctx: RebuildContext, state: RebuildState, event: RebuildEvent)
    requires
        ctx.ask,
        rebuild_spec(ctx, state, event) matches Ok((s, _)) && s == RebuildState::Activating,
    ensures
        state == RebuildState::Confirming,
        event == RebuildEvent::Answered(true),
{
}

/// Without confirmation, a successful comparison is followed directly by
/// the activation.
pub proof fn lemma_no_prompt_activates(ctx: RebuildContext, result: Option<String>)
    requires
        !ctx.ask,
    ensures
        rebuild_spec(ctx, RebuildState::Diffing, RebuildEvent::Ran(Ok(result))) == Ok::<
            (RebuildState, ActionView),
            HomeRebuildError,
        >((RebuildState::Activating, ActionView::Run(activate_spec(ctx)))),
{
}

/// A failed build ends the rebuild with that failure: no comparison,
/// prompt or activation follows.
pub proof fn lemma_failed_build_stops(ctx: RebuildContext, events: Seq<RebuildEvent>)
    requires
        events.len() >= 1,
        events[0] matches RebuildEvent::Built(Err(_)),
    ensures
        steps(ctx, RebuildState::Building, events) == Seq::<(RebuildState, ActionView)>::empty(),
        events[0] matches RebuildEvent::Built(Err(e)) && rebuild_spec(
            ctx,
            RebuildState::Building,
            events[0],
        ) == Err::<(RebuildState, ActionView), HomeRebuildError>(HomeRebuildError::Build(e)),
{
}

} // verus!
