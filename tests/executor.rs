use mkrepo::command::CommandType;
use mkrepo::executor::{
    template_archive_path, DefaultExecutor, DryRunExecutor, Effect, Executor, ExecutorError,
    GitError, Report, Step,
};

fn plan() -> Vec<CommandType> {
    vec![
        CommandType::CreateDirectory { path: "/r".to_owned() },
        CommandType::InitializeGit { first_commit_message: "Initial commit".to_owned(), path: "/r".to_owned() },
        CommandType::ExpandProjectTemplate { template_name: "typescript".to_owned(), path: "/r".to_owned() },
    ]
}

fn git_plan() -> Vec<CommandType> {
    vec![CommandType::InitializeGit { first_commit_message: "m".to_owned(), path: "/r".to_owned() }]
}

#[test]
fn dry_run_announces_each_step_and_succeeds() {
    let mut run = DryRunExecutor::new().execute(plan());
    assert_eq!(run.advance(Report::Nothing), Step::Perform(Effect::Announce { line: "CreateDirectory: /r".to_owned() }));
    assert_eq!(
        run.advance(Report::Failed),
        Step::Perform(Effect::Announce { line: "InitializeGit: Initial commit /r".to_owned() })
    );
    assert_eq!(
        run.advance(Report::Succeeded),
        Step::Perform(Effect::Announce { line: "ExpandProjectTemplate: typescript /r".to_owned() })
    );
    assert_eq!(run.advance(Report::Succeeded), Step::Finish(Ok(())));
    assert_eq!(run.advance(Report::Failed), Step::Finish(Ok(())));
}

#[test]
fn default_run_performs_each_step_in_order() {
    let mut run = DefaultExecutor::new().execute(plan());
    assert_eq!(run.advance(Report::Nothing), Step::Perform(Effect::CreateDirectory { path: "/r".to_owned() }));
    assert_eq!(run.advance(Report::Succeeded), Step::Perform(Effect::QueryRepository { path: "/r".to_owned() }));
    assert_eq!(
        run.advance(Report::Exited { success: false }),
        Step::Perform(Effect::InitRepository { path: "/r".to_owned() })
    );
    assert_eq!(
        run.advance(Report::Exited { success: true }),
        Step::Perform(Effect::CommitEmpty { path: "/r".to_owned(), message: "Initial commit".to_owned() })
    );
    assert_eq!(
        run.advance(Report::Exited { success: true }),
        Step::Perform(Effect::UnpackTemplate { path: "/r".to_owned(), template_name: "typescript".to_owned() })
    );
    assert_eq!(run.advance(Report::Succeeded), Step::Finish(Ok(())));
}

#[test]
fn empty_plan_finishes_at_once() {
    let mut run = DefaultExecutor::new().execute(vec![]);
    assert_eq!(run.advance(Report::Nothing), Step::Finish(Ok(())));
}

#[test]
fn existing_directory_counts_as_created() {
    let mut run = DefaultExecutor::new().execute(vec![CommandType::CreateDirectory { path: "/r".to_owned() }]);
    run.advance(Report::Nothing);
    assert_eq!(run.advance(Report::Succeeded), Step::Finish(Ok(())));
}

#[test]
fn failed_directory_stops_the_run() {
    let mut run = DefaultExecutor::new().execute(plan());
    run.advance(Report::Nothing);
    let stop = Step::Finish(Err(ExecutorError::CreateDirectoryError));
    assert_eq!(run.advance(Report::Failed), stop);
    assert_eq!(run.advance(Report::Succeeded), stop);
}

#[test]
fn second_git_initialization_is_refused() {
    let mut first = DefaultExecutor::new().execute(git_plan());
    assert_eq!(first.advance(Report::Nothing), Step::Perform(Effect::QueryRepository { path: "/r".to_owned() }));
    first.advance(Report::Exited { success: false });
    first.advance(Report::Exited { success: true });
    assert_eq!(first.advance(Report::Exited { success: true }), Step::Finish(Ok(())));

    let mut second = DefaultExecutor::new().execute(git_plan());
    second.advance(Report::Nothing);
    let refused = Step::Finish(Err(ExecutorError::GitInitializeError(GitError::AlreadyExist)));
    assert_eq!(second.advance(Report::Exited { success: true }), refused);
    assert_eq!(second.advance(Report::Exited { success: false }), refused);
}

#[test]
fn failed_git_init_fails_after_the_commit() {
    let mut run = DefaultExecutor::new().execute(plan());
    run.advance(Report::Nothing);
    run.advance(Report::Succeeded);
    run.advance(Report::Exited { success: false });
    assert_eq!(
        run.advance(Report::Exited { success: false }),
        Step::Perform(Effect::CommitEmpty { path: "/r".to_owned(), message: "Initial commit".to_owned() })
    );
    assert_eq!(
        run.advance(Report::Exited { success: true }),
        Step::Finish(Err(ExecutorError::GitInitializeError(GitError::Initialize)))
    );
}

#[test]
fn git_that_cannot_run_fails_initialization() {
    let mut run = DefaultExecutor::new().execute(plan());
    run.advance(Report::Nothing);
    run.advance(Report::Succeeded);
    assert_eq!(
        run.advance(Report::Failed),
        Step::Finish(Err(ExecutorError::GitInitializeError(GitError::Initialize)))
    );
}

#[test]
fn failed_unpacking_is_a_template_error() {
    let mut run = DefaultExecutor::new().execute(vec![CommandType::ExpandProjectTemplate {
        template_name: "t".to_owned(),
        path: "/r".to_owned(),
    }]);
    assert_eq!(
        run.advance(Report::Nothing),
        Step::Perform(Effect::UnpackTemplate { path: "/r".to_owned(), template_name: "t".to_owned() })
    );
    assert_eq!(run.advance(Report::Failed), Step::Finish(Err(ExecutorError::TemplateExpansionError)));
}

#[test]
fn template_archive_is_in_the_home_template_directory() {
    let path = template_archive_path("typescript");
    assert!(path.ends_with(".mkrepo/typescript.tar.gz"));
    assert!(!path.starts_with('~'));
}

#[test]
fn executor_errors_describe_themselves() {
    assert_eq!(
        ExecutorError::GitInitializeError(GitError::AlreadyExist).description(),
        "git repository already exist"
    );
}
