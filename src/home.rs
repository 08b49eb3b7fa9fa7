use vstd::prelude::*;
use vstd::string::StringExecFns;
use crate::command::{Command, CommandView, RunError};
use crate::exit::ExitError;

verus! {

/// Why a rebuild stopped.
#[derive(Debug, PartialEq, Eq)]
pub enum HomeRebuildError {
    /// The configuration asked for does not exist.
    ConfigName(String),
    /// The user declined to apply the new configuration.
    NoConfirm,
    /// The evaluator answered neither `true` nor `false`; its text.
    Unparseable(String),
    /// A command failed to start or ended badly.
    Run(RunError),
    /// The build, or the comparison that follows it, ended badly.
    Build(ExitError),
    /// An event arrived that the current state does not expect.
    OutOfOrder,
}

/// What the evaluator's answer says: `Some(b)` for the exact texts `true`
/// and `false`, `None` for any other text.
pub open spec fn answer_spec(text: Seq<char>) -> Option<bool> {
    if text == "true"@ {
        Some(true)
    } else if text == "false"@ {
        Some(false)
    } else {
        None
    }
}

/// Reads the evaluator's captured answer to a membership query.
pub fn configuration_exists(output: String) -> (r: Result<bool, HomeRebuildError>)
    ensures
        output@ == "true"@ ==> r == Ok::<bool, HomeRebuildError>(true),
        output@ == "false"@ ==> r == Ok::<bool, HomeRebuildError>(false),
        answer_spec(output@) is None ==> r == Err::<bool, HomeRebuildError>(
            HomeRebuildError::Unparseable(output),
        ),
{
    proof {
        reveal_strlit("true");
        reveal_strlit("false");
        assert("true"@.len() != "false"@.len());
    }
    if output == String::from_str("true") {
        Ok(true)
    } else if output == String::from_str("false") {
        Ok(false)
    } else {
        Err(HomeRebuildError::Unparseable(output))
    }
}

/// Nothing to report for the information subcommand.
pub fn home_info() -> (r: Result<(), HomeRebuildError>)
    ensures
        r == Ok::<(), HomeRebuildError>(()),
{
    Ok(())
}

/// The query that asks whether `name` is among the configurations of `flakeref`.
pub open spec fn query_spec(flakeref: Seq<char>, name: Seq<char>) -> CommandView {
    CommandView {
        dry: false,
        message: None,
        capture: true,
        args: seq![
            "nix"@,
            "eval"@,
            flakeref + "#homeConfigurations"@,
            "--apply"@,
            " x: x ? \""@ + name + "\" "@,
        ],
    }
}

/// The configuration name tried first: `user@host`.
pub open spec fn candidate_spec(username: Seq<char>, hostname: Seq<char>) -> Seq<char> {
    username + "@"@ + hostname
}

/// The attribute that holds the activation package of configuration `name`.
pub open spec fn target_spec(flakeref: Seq<char>, name: Seq<char>) -> Seq<char> {
    flakeref + "#homeConfigurations."@ + name + ".config.home.activationPackage"@
}

/// `a + b + c` as a new string.
fn join3(a: &String, b: &str, c: &String) -> (r: String)
    ensures
        r@ == a@ + b@ + c@,
{
    let r = a.clone().concat(b);
    r.concat(c.as_str())
}

/// The command that asks the evaluator whether `configuration` is defined.
pub fn configuration_query(flakeref: &String, configuration: &String) -> (r: Command)
    ensures
        r@ == query_spec(flakeref@, configuration@),
{
    let output = flakeref.clone().concat("#homeConfigurations");
    let filter = String::from_str(" x: x ? \"").concat(configuration.as_str()).concat("\" ");
    let mut args: Vec<String> = Vec::new();
    args.push(String::from_str("nix"));
    args.push(String::from_str("eval"));
    args.push(output);
    args.push(String::from_str("--apply"));
    args.push(filter);
    let r = Command { dry: false, message: None, capture: true, args };
    assert(r@.args =~= query_spec(flakeref@, configuration@).args);
    r
}

/// The configuration name tried when none is given: `username@hostname`.
pub fn candidate_name(username: &String, hostname: &String) -> (r: String)
    ensures
        r@ == candidate_spec(username@, hostname@),
{
    join3(username, "@", hostname)
}

/// The default configuration: `username@hostname` where the evaluator
/// reports it, else the bare user name.
pub fn default_name(username: &String, hostname: &String, candidate_exists: bool) -> (r: String)
    ensures
        candidate_exists ==> r@ == candidate_spec(username@, hostname@),
        !candidate_exists ==> r@ == username@,
{
    if candidate_exists {
        candidate_name(username, hostname)
    } else {
        username.clone()
    }
}

/// The build target for configuration `name`.
pub fn activation_target(flakeref: &String, name: &String) -> (r: String)
    ensures
        r@ == target_spec(flakeref@, name@),
{
    let r = join3(flakeref, "#homeConfigurations.", name);
    r.concat(".config.home.activationPackage")
}

} // verus!
