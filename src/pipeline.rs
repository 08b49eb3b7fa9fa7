use vstd::prelude::*;
use vstd::string::StringExecFns;
use crate::command::{opt_str, strs};
use crate::exit::{ExitError, ExitOutcome};

verus! {

/// Arguments for the build tool: the target, the structured-log flags when
/// the output goes through the log formatter, then the extra arguments.
pub open spec fn build_args_spec(flakeref: Seq<char>, extra: Seq<Seq<char>>, nom: bool) -> Seq<
    Seq<char>,
> {
    if nom {
        seq!["build"@, flakeref, "--log-format"@, "internal-json"@, "--verbose"@] + extra
    } else {
        seq!["build"@, flakeref] + extra
    }
}

/// The build stage: the build tool on a target, optionally piped through a
/// log formatter.
#[derive(Debug, Default)]
pub struct BuildCommand {
    /// Human-readable message on what the build does.
    pub message: Option<String>,
    /// What to build.
    pub flakeref: String,
    /// Extra arguments for the build tool.
    pub extra_args: Vec<String>,
    /// Pipe the build tool's output through the log formatter.
    pub nom: bool,
    /// Log the build without running it.
    pub dry: bool,
}

/// A build as plain values.
pub ghost struct BuildView {
    pub message: Option<Seq<char>>,
    pub flakeref: Seq<char>,
    pub extra_args: Seq<Seq<char>>,
    pub nom: bool,
    pub dry: bool,
}

impl View for BuildCommand {
    type V = BuildView;

    open spec fn view(&self) -> BuildView {
        BuildView {
            message: opt_str(self.message),
            flakeref: self.flakeref@,
            extra_args: strs(self.extra_args@),
            nom: self.nom,
            dry: self.dry,
        }
    }
}

/// Collects the fields of a [`BuildCommand`].
#[derive(Debug, Default)]
pub struct BuildCommandBuilder {
    pub message: Option<String>,
    pub flakeref: String,
    pub extra_args: Vec<String>,
    pub nom: bool,
    pub dry: bool,
}

/// The processes of a build: the build tool's full argument list (program
/// first), with standard error merged into standard output, and, when
/// present, the formatter's, which reads that combined stream.
#[derive(Debug)]
pub struct BuildLaunch {
    pub build: Vec<String>,
    pub formatter: Option<Vec<String>>,
}

/// How the processes of a launched build ended.
#[derive(Clone, Copy, Debug, PartialEq, Eq, Structural)]
pub struct StageExits {
    pub build: ExitOutcome,
    pub formatter: Option<ExitOutcome>,
}

impl StageExits {
    /// The outcome of the last process of the pipeline.
    pub open spec fn terminal(self) -> ExitOutcome {
        match self.formatter {
            Some(f) => f,
            None => self.build,
        }
    }

    /// Every process of the pipeline exited cleanly.
    pub open spec fn all_success(self) -> bool {
        self.build.is_success_spec() && match self.formatter {
            Some(f) => f.is_success_spec(),
            None => true,
        }
    }
}

/// The next thing to do for a build.
#[derive(Debug)]
pub enum BuildStep {
    /// Start these processes and report how they ended.
    Launch(BuildLaunch),
    /// The build succeeded.
    Finished,
}

impl BuildCommandBuilder {
    pub fn new() -> (r: BuildCommandBuilder)
        ensures
            r.message is None,
            r.flakeref@.len() == 0,
            r.extra_args@.len() == 0,
            !r.nom,
            !r.dry,
    {
        BuildCommandBuilder {
            message: None,
            flakeref: String::new(),
            extra_args: Vec::new(),
            nom: false,
            dry: false,
        }
    }

    /// Appends `input` to the extra arguments.
    pub fn extra_args(&mut self, input: &[String])
        ensures
            final(self).extra_args@ == old(self).extra_args@ + input@,
            final(self).flakeref == old(self).flakeref,
            final(self).nom == old(self).nom,
            final(self).dry == old(self).dry,
            final(self).message == old(self).message,
    {
        let mut i: usize = 0;
        while i < input.len()
            invariant
                i <= input@.len(),
                self.extra_args@ == old(self).extra_args@ + input@.subrange(0, i as int),
                self.flakeref == old(self).flakeref,
                self.nom == old(self).nom,
                self.dry == old(self).dry,
                self.message == old(self).message,
            decreases input@.len() - i,
        {
            self.extra_args.push(input[i].clone());
            i = i + 1;
            assert(self.extra_args@ =~= old(self).extra_args@ + input@.subrange(0, i as int));
        }
        assert(input@.subrange(0, input@.len() as int) =~= input@);
    }

    pub fn build(&self) -> (r: BuildCommand)
        ensures
            r.message == self.message,
            r.flakeref == self.flakeref,
            r.extra_args@ == self.extra_args@,
            r.nom == self.nom,
            r.dry == self.dry,
    {
        BuildCommand {
            message: self.message.clone(),
            flakeref: self.flakeref.clone(),
            extra_args: crate::command::copy_strings(&self.extra_args),
            nom: self.nom,
            dry: self.dry,
        }
    }
}

impl BuildCommand {
    /// The build tool's arguments, program first.
    pub fn build_argv(&self) -> (r: Vec<String>)
        ensures
            r@.len() >= 1,
            r@[0]@ == "nix"@,
            strs(r@).drop_first() == build_args_spec(self.flakeref@, strs(self.extra_args@), self.nom),
    {
        let mut r: Vec<String> = Vec::new();
        r.push(String::from_str("nix"));
        r.push(String::from_str("build"));
        r.push(self.flakeref.clone());
        if self.nom {
            r.push(String::from_str("--log-format"));
            r.push(String::from_str("internal-json"));
            r.push(String::from_str("--verbose"));
        }
        let ghost start = r@.len();
        let mut i: usize = 0;
        while i < self.extra_args.len()
            invariant
                i <= self.extra_args@.len(),
                start == r@.len() - i,
                r@.len() >= 1,
                r@[0]@ == "nix"@,
                strs(r@).drop_first() == build_args_spec(
                    self.flakeref@,
                    strs(self.extra_args@.subrange(0, i as int)),
                    self.nom,
                ),
            decreases self.extra_args@.len() - i,
        {
            let ghost prev = r@;
            let ghost sub = self.extra_args@.subrange(0, i as int);
            r.push(self.extra_args[i].clone());
            assert(self.extra_args@.subrange(0, i + 1) =~= sub.push(self.extra_args@[i as int]));
            assert(strs(sub.push(self.extra_args@[i as int])) =~= strs(sub).push(
                self.extra_args@[i as int]@,
            ));
            assert(strs(r@).drop_first() =~= strs(prev).drop_first().push(self.extra_args@[i as int]@));
            i = i + 1;
            assert(strs(r@).drop_first() =~= build_args_spec(
                self.flakeref@,
                strs(self.extra_args@.subrange(0, i as int)),
                self.nom,
            ));
        }
        assert(self.extra_args@.subrange(0, i as int) =~= self.extra_args@);
        r
    }

    /// Advances the build. Called first with `None`, it says which processes
    /// to start, or, in a dry run, that nothing is to be run; called with how
    /// they ended, it succeeds only when every process exited cleanly, and
    /// otherwise fails with the last process's outcome.
    pub fn run(&self, exits: Option<StageExits>) -> (r: Result<BuildStep, ExitError>)
        ensures
            match exits {
                None => if self.dry {
                    r matches Ok(BuildStep::Finished)
                } else {
                    r matches Ok(BuildStep::Launch(l)) && l.build@.len() >= 1
                    && strs(l.build@).drop_first()
                    == build_args_spec(self.flakeref@, strs(self.extra_args@), self.nom)
                    && l.build@[0]@ == "nix"@ && (self.nom <==> l.formatter is Some)
                    && (l.formatter matches Some(f) ==> strs(f@) == seq!["nom"@, "--json"@])
                },
                Some(e) => if e.all_success() {
                    r matches Ok(BuildStep::Finished)
                } else {
                    r == Err::<BuildStep, ExitError>(ExitError(e.terminal()))
                },
            },
    {
        match exits {
            None => {
                if self.dry {
                    return Ok(BuildStep::Finished);
                }
                let build = self.build_argv();
                let formatter = if self.nom {
                    let mut f: Vec<String> = Vec::new();
                    f.push(String::from_str("nom"));
                    f.push(String::from_str("--json"));
                    assert(strs(f@) =~= seq!["nom"@, "--json"@]);
                    Some(f)
                } else {
                    None
                };
                Ok(BuildStep::Launch(BuildLaunch { build, formatter }))
            },
            Some(e) => {
                let ok_formatter = match e.formatter {
                    Some(f) => f.is_success(),
                    None => true,
                };
                if e.build.is_success() && ok_formatter {
                    Ok(BuildStep::Finished)
                } else {
                    let last = match e.formatter {
                        Some(f) => f,
                        None => e.build,
                    };
                    Err(ExitError(last))
                }
            },
        }
    }
}

} // verus!
