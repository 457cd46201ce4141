use vstd::prelude::*;

use crate::command::{
    commands_view, description, host_separator, normalize_with, normalized, CommandType,
    CommandView,
};
use crate::config::expand_tilde;

verus! {

/// Why initializing a git repository failed.
#[derive(Debug, PartialEq, Eq, Clone, Copy, Structural)]
pub enum GitError {
    /// `git init` or the first commit could not be run or did not succeed.
    Initialize,
    /// The directory already belongs to a git repository.
    AlreadyExist,
}

/// Which kind of step failed.
#[derive(Debug, PartialEq, Eq, Clone, Copy, Structural)]
pub enum ExecutorError {
    CreateDirectoryError,
    GitInitializeError(GitError),
    TemplateExpansionError,
}

impl ExecutorError {
    /// A sentence that tells a user what went wrong.
    pub fn description(&self) -> &'static str {
        match self {
            ExecutorError::CreateDirectoryError => "fail create directory",
            ExecutorError::GitInitializeError(GitError::Initialize) => "fail initialize git repository",
            ExecutorError::GitInitializeError(GitError::AlreadyExist) => "git repository already exist",
            ExecutorError::TemplateExpansionError => "fail expand project template",
        }
    }
}

/// What became of the effect that was performed last.
#[derive(Debug, PartialEq, Eq, Clone, Copy, Structural)]
pub enum Report {
    /// No effect has been performed yet.
    Nothing,
    /// The effect was carried out.
    Succeeded,
    /// The effect could not be carried out.
    Failed,
    /// A git process ran and exited, with a success status or not.
    Exited { success: bool },
}

/// An effect on the outside world that a run asks for.
#[derive(Debug, PartialEq)]
pub enum Effect {
    /// Show a line to the user.
    Announce { line: String },
    /// Create the directory and every missing parent; one that exists is fine.
    CreateDirectory { path: String },
    /// Run `git status` in the directory.
    QueryRepository { path: String },
    /// Run `git init` in the directory.
    InitRepository { path: String },
    /// Run `git commit --allow-empty` with the message in the directory.
    CommitEmpty { path: String, message: String },
    /// Unpack the named template archive into the directory.
    UnpackTemplate { path: String, template_name: String },
}

/// The mathematical value of an `Effect`.
pub enum EffectView {
    Announce { line: Seq<char> },
    CreateDirectory { path: Seq<char> },
    QueryRepository { path: Seq<char> },
    InitRepository { path: Seq<char> },
    CommitEmpty { path: Seq<char>, message: Seq<char> },
    UnpackTemplate { path: Seq<char>, template_name: Seq<char> },
}

impl View for Effect {
    type V = EffectView;

    open spec fn view(&self) -> EffectView {
        match self {
            Effect::Announce { line } => EffectView::Announce { line: line@ },
            Effect::CreateDirectory { path } => EffectView::CreateDirectory { path: path@ },
            Effect::QueryRepository { path } => EffectView::QueryRepository { path: path@ },
            Effect::InitRepository { path } => EffectView::InitRepository { path: path@ },
            Effect::CommitEmpty { path, message } => EffectView::CommitEmpty {
                path: path@,
                message: message@,
            },
            Effect::UnpackTemplate { path, template_name } => EffectView::UnpackTemplate {
                path: path@,
                template_name: template_name@,
            },
        }
    }
}

/// What a run does next: perform an effect and report on it, or stop.
#[derive(Debug, PartialEq)]
pub enum Step {
    Perform(Effect),
    Finish(Result<(), ExecutorError>),
}

/// The mathematical value of a `Step`.
pub enum StepView {
    Perform(EffectView),
    Finish(Result<(), ExecutorError>),
}

impl View for Step {
    type V = StepView;

    open spec fn view(&self) -> StepView {
        match self {
            Step::Perform(e) => StepView::Perform(e@),
            Step::Finish(r) => StepView::Finish(*r),
        }
    }
}

/// Where the archive of a template is kept, before the home shorthand is
/// expanded: `~/.mkrepo/<name>.tar.gz`.
pub open spec fn template_archive(template_name: Seq<char>) -> Seq<char> {
    "~/.mkrepo/"@ + template_name + ".tar.gz"@
}

/// The archive of the template named `template_name`, in the user's template
/// directory, written with this host's separator.
pub fn template_archive_path(template_name: &str) -> (r: String)
    ensures
        exists|separator: char, expanded: Seq<char>|
            r@ == normalized(expanded, separator) && (expanded == template_archive(template_name@)
                || exists|home: Seq<char>|
                expanded == home + template_archive(template_name@).drop_first()),
{
    let mut raw = "~/.mkrepo/".to_owned();
    raw.append(template_name);
    raw.append(".tar.gz");
    let expanded = expand_tilde(raw.as_str());
    normalize_with(expanded.as_str(), host_separator())
}

/// Where a run stands with the command at its position.
#[derive(Debug, PartialEq, Eq, Clone, Copy, Structural)]
pub enum Stage {
    /// The command at the position has not been started.
    Ready,
    /// Its description was handed out.
    Announcing,
    /// Its directory is being created.
    Creating,
    /// Git is asked whether a repository is there already.
    Querying,
    /// `git init` is running.
    Initializing,
    /// The first commit is running; `init_succeeded` tells how `git init` ended.
    Committing { init_succeeded: bool },
    /// Its template is being unpacked.
    Unpacking,
    /// Every command was carried out.
    Completed,
    /// A command failed, and the run stopped there.
    Aborted { error: ExecutorError },
}

/// The mathematical value of an `Execution`.
pub struct ExecutionView {
    pub commands: Seq<CommandView>,
    pub dry_run: bool,
    pub position: nat,
    pub stage: Stage,
}

/// Whether a run's stage fits the command at its position.
pub open spec fn well_formed(s: ExecutionView) -> bool {
    &&& s.position <= s.commands.len()
    &&& match s.stage {
        Stage::Ready | Stage::Completed | Stage::Aborted { .. } => true,
        Stage::Announcing => s.dry_run && s.position < s.commands.len(),
        Stage::Creating => !s.dry_run && s.position < s.commands.len()
            && s.commands[s.position as int] is CreateDirectory,
        Stage::Querying | Stage::Initializing | Stage::Committing { .. } => !s.dry_run
            && s.position < s.commands.len() && s.commands[s.position as int] is InitializeGit,
        Stage::Unpacking => !s.dry_run && s.position < s.commands.len()
            && s.commands[s.position as int] is ExpandProjectTemplate,
    }
}

/// `s` at `position` in `stage`.
pub open spec fn moved(s: ExecutionView, position: nat, stage: Stage) -> ExecutionView {
    ExecutionView { commands: s.commands, dry_run: s.dry_run, position, stage }
}

/// Starts the command at `position`, or completes the run past the last one.
pub open spec fn begun(s: ExecutionView, position: nat) -> (ExecutionView, StepView) {
    if position >= s.commands.len() {
        (moved(s, position, Stage::Completed), StepView::Finish(Ok(())))
    } else if s.dry_run {
        (
            moved(s, position, Stage::Announcing),
            StepView::Perform(EffectView::Announce { line: description(s.commands[position as int]) }),
        )
    } else {
        match s.commands[position as int] {
            CommandView::CreateDirectory { path } => (
                moved(s, position, Stage::Creating),
                StepView::Perform(EffectView::CreateDirectory { path }),
            ),
            CommandView::InitializeGit { path, .. } => (
                moved(s, position, Stage::Querying),
                StepView::Perform(EffectView::QueryRepository { path }),
            ),
            CommandView::ExpandProjectTemplate { template_name, path } => (
                moved(s, position, Stage::Unpacking),
                StepView::Perform(EffectView::UnpackTemplate { path, template_name }),
            ),
        }
    }
}

/// Stops the run with `error`.
pub open spec fn aborted(s: ExecutionView, error: ExecutorError) -> (ExecutionView, StepView) {
    (moved(s, s.position, Stage::Aborted { error }), StepView::Finish(Err(error)))
}

/// The path of the git step at the position.
pub open spec fn git_path(s: ExecutionView) -> Seq<char> {
    s.commands[s.position as int]->InitializeGit_path
}

/// The next state of a run and what it does next, given the report on the
/// effect performed last.
pub open spec fn advanced(s: ExecutionView, report: Report) -> (ExecutionView, StepView) {
    match s.stage {
        Stage::Ready => begun(s, s.position),
        Stage::Completed => (s, StepView::Finish(Ok(()))),
        Stage::Aborted { error } => (s, StepView::Finish(Err(error))),
        Stage::Announcing => begun(s, s.position + 1),
        Stage::Creating => if report is Succeeded {
            begun(s, s.position + 1)
        } else {
            aborted(s, ExecutorError::CreateDirectoryError)
        },
        Stage::Querying => match report {
            Report::Exited { success: true } => aborted(
                s,
                ExecutorError::GitInitializeError(GitError::AlreadyExist),
            ),
            Report::Exited { success: false } => (
                moved(s, s.position, Stage::Initializing),
                StepView::Perform(EffectView::InitRepository { path: git_path(s) }),
            ),
            _ => aborted(s, ExecutorError::GitInitializeError(GitError::Initialize)),
        },
        Stage::Initializing => match report {
            Report::Exited { success } => (
                moved(s, s.position, Stage::Committing { init_succeeded: success }),
                StepView::Perform(
                    EffectView::CommitEmpty {
                        path: git_path(s),
                        message: s.commands[s.position as int]->InitializeGit_first_commit_message,
                    },
                ),
            ),
            _ => aborted(s, ExecutorError::GitInitializeError(GitError::Initialize)),
        },
        Stage::Committing { init_succeeded } => if init_succeeded && report == (Report::Exited {
            success: true,
        }) {
            begun(s, s.position + 1)
        } else {
            aborted(s, ExecutorError::GitInitializeError(GitError::Initialize))
        },
        Stage::Unpacking => if report is Succeeded {
            begun(s, s.position + 1)
        } else {
            aborted(s, ExecutorError::TemplateExpansionError)
        },
    }
}

/// A dry run only describes: every step it takes hands out the description
/// of the command at its position, or finishes with success, and it stays a
/// well-formed dry run that has not failed.
pub proof fn lemma_dry_run_infallible(s: ExecutionView, report: Report)
    requires
        well_formed(s),
        s.dry_run,
        !(s.stage is Aborted),
    ensures
        ({
            let (next, step) = advanced(s, report);
            &&& well_formed(next)
            &&& next.dry_run
            &&& !(next.stage is Aborted)
            &&& step == StepView::Finish(Ok(())) || step == StepView::Perform(
                EffectView::Announce { line: description(next.commands[next.position as int]) },
            )
        }),
{
}

/// A run stops at the first failure: once a step finishes with an error,
/// every later report gets that same error back, and no effect.
pub proof fn lemma_fail_fast(s: ExecutionView, report: Report, later: Report)
    requires
        well_formed(s),
        advanced(s, report).1 is Finish,
        advanced(s, report).1->Finish_0 is Err,
    ensures
        advanced(advanced(s, report).0, later) == (advanced(s, report).0, advanced(s, report).1),
{
}

/// A run never initializes a repository twice: it asks for `git init` only
/// right after git reported that no repository is there, and for the first
/// commit only right after `git init`; where a repository is there already,
/// the run fails with `AlreadyExist` and stops.
pub proof fn lemma_git_double_init_guard(s: ExecutionView, report: Report)
    requires
        well_formed(s),
    ensures
        advanced(s, report).1 matches StepView::Perform(e) && e is InitRepository ==> s.stage
            is Querying && report == (Report::Exited { success: false }),
        advanced(s, report).1 matches StepView::Perform(e) && e is CommitEmpty ==> s.stage
            is Initializing,
        s.stage is Querying && report == (Report::Exited { success: true }) ==> advanced(s, report)
            == aborted(s, ExecutorError::GitInitializeError(GitError::AlreadyExist)),
{
}

/// Every step keeps a run well formed.
pub proof fn lemma_advance_well_formed(s: ExecutionView, report: Report)
    requires
        well_formed(s),
    ensures
        well_formed(advanced(s, report).0),
        advanced(s, report).0.commands == s.commands,
        advanced(s, report).0.dry_run == s.dry_run,
{
}

/// A plan being carried out one effect at a time. The caller performs each
/// effect that `advance` hands out and reports how it went.
pub struct Execution {
    commands: Vec<CommandType>,
    dry_run: bool,
    position: usize,
    stage: Stage,
}

impl View for Execution {
    type V = ExecutionView;

    closed spec fn view(&self) -> ExecutionView {
        ExecutionView {
            commands: commands_view(self.commands@),
            dry_run: self.dry_run,
            position: self.position as nat,
            stage: self.stage,
        }
    }
}

impl Execution {
    #[verifier::type_invariant]
    closed spec fn inv(&self) -> bool {
        well_formed(self@)
    }

    /// A run of `commands` that has not started.
    pub fn new(commands: Vec<CommandType>, dry_run: bool) -> (r: Execution)
        ensures
            r@ == (ExecutionView {
                commands: commands_view(commands@),
                dry_run,
                position: 0,
                stage: Stage::Ready,
            }),
    {
        Execution { commands, dry_run, position: 0, stage: Stage::Ready }
    }

    fn begin(&mut self, position: usize) -> (step: Step)
        requires
            old(self)@.stage == Stage::Ready,
            position <= old(self)@.commands.len(),
        ensures
            (final(self)@, step@) == begun(old(self)@, position as nat),
    {
        proof { use_type_invariant(&*self); }
        self.position = position;
        if position >= self.commands.len() {
            self.stage = Stage::Completed;
            return Step::Finish(Ok(()));
        }
        if self.dry_run {
            let line = self.commands[position].describe();
            self.stage = Stage::Announcing;
            return Step::Perform(Effect::Announce { line });
        }
        match &self.commands[position] {
            CommandType::CreateDirectory { path } => {
                let path = path.clone();
                self.stage = Stage::Creating;
                Step::Perform(Effect::CreateDirectory { path })
            },
            CommandType::InitializeGit { path, .. } => {
                let path = path.clone();
                self.stage = Stage::Querying;
                Step::Perform(Effect::QueryRepository { path })
            },
            CommandType::ExpandProjectTemplate { template_name, path } => {
                let path = path.clone();
                let template_name = template_name.clone();
                self.stage = Stage::Unpacking;
                Step::Perform(Effect::UnpackTemplate { path, template_name })
            },
        }
    }

    fn abort(&mut self, error: ExecutorError) -> (step: Step)
        ensures
            (final(self)@, step@) == aborted(old(self)@, error),
    {
        proof { use_type_invariant(&*self); }
        self.stage = Stage::Aborted { error };
        Step::Finish(Err(error))
    }

    /// Takes the report on the effect performed last (`Nothing` before the
    /// first) and says what to do next.
    pub fn advance(&mut self, report: Report) -> (step: Step)
        ensures
            (final(self)@, step@) == advanced(old(self)@, report),
    {
        proof { use_type_invariant(&*self); }
        match self.stage {
            Stage::Ready => self.begin(self.position),
            Stage::Completed => Step::Finish(Ok(())),
            Stage::Aborted { error } => Step::Finish(Err(error)),
            Stage::Announcing => {
                let next = self.following();
                self.stage = Stage::Ready;
                self.begin(next)
            },
            Stage::Creating => match report {
                Report::Succeeded => {
                    let next = self.following();
                    self.stage = Stage::Ready;
                    self.begin(next)
                },
                _ => self.abort(ExecutorError::CreateDirectoryError),
            },
            Stage::Querying => match report {
                Report::Exited { success: true } => self.abort(
                    ExecutorError::GitInitializeError(GitError::AlreadyExist),
                ),
                Report::Exited { success: false } => {
                    let path = self.git_path();
                    self.stage = Stage::Initializing;
                    Step::Perform(Effect::InitRepository { path })
                },
                _ => self.abort(ExecutorError::GitInitializeError(GitError::Initialize)),
            },
            Stage::Initializing => match report {
                Report::Exited { success } => {
                    let path = self.git_path();
                    let message = self.git_message();
                    self.stage = Stage::Committing { init_succeeded: success };
                    Step::Perform(Effect::CommitEmpty { path, message })
                },
                _ => self.abort(ExecutorError::GitInitializeError(GitError::Initialize)),
            },
            Stage::Committing { init_succeeded } => match report {
                Report::Exited { success: true } if init_succeeded => {
                    let next = self.following();
                    self.stage = Stage::Ready;
                    self.begin(next)
                },
                _ => self.abort(ExecutorError::GitInitializeError(GitError::Initialize)),
            },
            Stage::Unpacking => match report {
                Report::Succeeded => {
                    let next = self.following();
                    self.stage = Stage::Ready;
                    self.begin(next)
                },
                _ => self.abort(ExecutorError::TemplateExpansionError),
            },
        }
    }

    fn following(&self) -> (r: usize)
        requires
            self@.position < self@.commands.len(),
        ensures
            r == self@.position + 1,
    {
        let n = self.commands.len();
        assert(self@.commands.len() == n);
        self.position + 1
    }

    fn git_path(&self) -> (r: String)
        requires
            self@.position < self@.commands.len(),
            self@.commands[self@.position as int] is InitializeGit,
        ensures
            r@ == git_path(self@),
    {
        match &self.commands[self.position] {
            CommandType::InitializeGit { path, .. } => path.clone(),
            _ => String::new(),
        }
    }

    fn git_message(&self) -> (r: String)
        requires
            self@.position < self@.commands.len(),
            self@.commands[self@.position as int] is InitializeGit,
        ensures
            r@ == self@.commands[self@.position as int]->InitializeGit_first_commit_message,
    {
        match &self.commands[self.position] {
            CommandType::InitializeGit { first_commit_message, .. } => first_commit_message.clone(),
            _ => String::new(),
        }
    }
}

/// Carries out a plan, one effect at a time.
pub trait Executor {
    /// Whether this executor only describes the steps.
    spec fn previews(&self) -> bool;

    /// A run of `commands` that has not started.
    fn execute(&self, commands: Vec<CommandType>) -> (run: Execution)
        ensures
            run@ == (ExecutionView {
                commands: commands_view(commands@),
                dry_run: self.previews(),
                position: 0,
                stage: Stage::Ready,
            }),
    ;
}

/// Describes each step and changes nothing.
#[derive(Debug, Default)]
pub struct DryRunExecutor {}

impl DryRunExecutor {
    pub fn new() -> DryRunExecutor {
        DryRunExecutor {}
    }
}

impl Executor for DryRunExecutor {
    open spec fn previews(&self) -> bool {
        true
    }

    fn execute(&self, commands: Vec<CommandType>) -> (run: Execution) {
        Execution::new(commands, true)
    }
}

/// Performs each step, and stops at the first that fails.
#[derive(Debug, Default)]
pub struct DefaultExecutor {}

impl DefaultExecutor {
    pub fn new() -> DefaultExecutor {
        DefaultExecutor {}
    }
}

impl Executor for DefaultExecutor {
    open spec fn previews(&self) -> bool {
        false
    }

    fn execute(&self, commands: Vec<CommandType>) -> (run: Execution) {
        Execution::new(commands, false)
    }
}

} // verus!
