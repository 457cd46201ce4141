use vstd::prelude::*;

use crate::command::{
    commands_view, host_separator, normalize_with, normalized, push_char, separates, CommandType,
    CommandView,
};
use crate::config::{str_opt, Config, ConfigView};

verus! {

/// Why no plan could be built.
#[derive(Debug, PartialEq, Eq, Clone, Copy, Structural)]
pub enum PlanError {
    /// The configuration names no root directory.
    MissingRoot,
    /// Neither the caller nor the configuration names an author.
    MissingAuthor,
}

impl PlanError {
    /// A sentence that tells a user what went wrong.
    pub fn description(&self) -> &'static str {
        match self {
            PlanError::MissingRoot => "ghq.root is not defined.",
            PlanError::MissingAuthor => "`--author`, `mkrepo.username`, or `user.name` required",
        }
    }
}

/// The author: the one given, else `mkrepo.username`, else `user.name`.
pub open spec fn resolved_author(config: ConfigView, author: Option<Seq<char>>) -> Option<Seq<char>> {
    if author is Some {
        author
    } else if config.mkrepo_username is Some {
        config.mkrepo_username
    } else {
        config.user_name
    }
}

/// The service: the one given, else `mkrepo.service`.
pub open spec fn resolved_service(config: ConfigView, service: Option<Seq<char>>) -> Seq<char> {
    match service {
        Some(s) => s,
        None => config.mkrepo_service,
    }
}

/// The message of the first commit when none is given.
pub open spec fn default_commit_message() -> Seq<char> {
    "Initial commit"@
}

/// The message of the first commit: the one given, else the default.
pub open spec fn commit_message(message: Option<Seq<char>>) -> Seq<char> {
    match message {
        Some(m) => m,
        None => default_commit_message(),
    }
}

/// `part` appended to the path `base` as one more component: a separator
/// goes between them unless `base` is empty or already ends with one.
pub open spec fn joined(base: Seq<char>, part: Seq<char>, separator: char) -> Seq<char> {
    if base.len() == 0 || separates(base.last(), separator) {
        base + part
    } else {
        base.push(separator) + part
    }
}

/// `<root>/<service>/<author>/<repository>`, normalized.
pub open spec fn repository_path(
    root: Seq<char>,
    service: Seq<char>,
    author: Seq<char>,
    repository: Seq<char>,
    separator: char,
) -> Seq<char> {
    normalized(
        joined(joined(joined(root, service, separator), author, separator), repository, separator),
        separator,
    )
}

/// The steps for a repository at `path`: create it, initialize git with a
/// first commit, then expand the template if one is named.
pub open spec fn steps(path: Seq<char>, message: Seq<char>, template: Option<Seq<char>>) -> Seq<CommandView> {
    let base = seq![
        CommandView::CreateDirectory { path },
        CommandView::InitializeGit { first_commit_message: message, path },
    ];
    match template {
        Some(t) => base.push(CommandView::ExpandProjectTemplate { template_name: t, path }),
        None => base,
    }
}

/// The number of steps of a plan with or without a template.
pub open spec fn steps_len(template: Option<Seq<char>>) -> int {
    if template is Some {
        3
    } else {
        2
    }
}

/// The path that a step works on.
pub open spec fn path_of(c: CommandView) -> Seq<char> {
    match c {
        CommandView::CreateDirectory { path } => path,
        CommandView::InitializeGit { path, .. } => path,
        CommandView::ExpandProjectTemplate { path, .. } => path,
    }
}

/// The plan for these inputs, or why there is none.
pub open spec fn planned(
    config: ConfigView,
    author: Option<Seq<char>>,
    service: Option<Seq<char>>,
    repository: Seq<char>,
    message: Option<Seq<char>>,
    template: Option<Seq<char>>,
    separator: char,
) -> Result<Seq<CommandView>, PlanError> {
    if config.ghq_root is None {
        Err(PlanError::MissingRoot)
    } else if resolved_author(config, author) is None {
        Err(PlanError::MissingAuthor)
    } else {
        Ok(
            steps(
                repository_path(
                    config.ghq_root->0,
                    resolved_service(config, service),
                    resolved_author(config, author)->0,
                    repository,
                    separator,
                ),
                commit_message(message),
                template,
            ),
        )
    }
}

/// The view of a plan, or of the error that stands for it.
pub open spec fn plan_view(r: Result<Vec<CommandType>, PlanError>) -> Result<Seq<CommandView>, PlanError> {
    match r {
        Ok(v) => Ok(commands_view(v@)),
        Err(e) => Err(e),
    }
}

/// Building a plan is deterministic: inputs of equal value give the same
/// plan, step for step.
pub proof fn lemma_plan_deterministic(
    config1: ConfigView,
    config2: ConfigView,
    author: Option<Seq<char>>,
    service: Option<Seq<char>>,
    repository: Seq<char>,
    message: Option<Seq<char>>,
    template: Option<Seq<char>>,
    separator: char,
)
    requires
        config1 == config2,
    ensures
        planned(config1, author, service, repository, message, template, separator) == planned(
            config2,
            author,
            service,
            repository,
            message,
            template,
            separator,
        ),
{
}

/// An author given by the caller is the author segment of every path of the
/// plan; without one, `mkrepo.username` is, and without that `user.name`.
pub proof fn lemma_author_precedence(
    config: ConfigView,
    author: Option<Seq<char>>,
    service: Option<Seq<char>>,
    repository: Seq<char>,
    message: Option<Seq<char>>,
    template: Option<Seq<char>>,
    separator: char,
    i: int,
)
    requires
        config.ghq_root is Some,
        author is Some || config.mkrepo_username is Some || config.user_name is Some,
        0 <= i < steps_len(template),
    ensures
        planned(config, author, service, repository, message, template, separator) is Ok,
        path_of(planned(config, author, service, repository, message, template, separator)->Ok_0[i])
            == repository_path(
            config.ghq_root->0,
            resolved_service(config, service),
            if author is Some {
                author->0
            } else if config.mkrepo_username is Some {
                config.mkrepo_username->0
            } else {
                config.user_name->0
            },
            repository,
            separator,
        ),
{
}

/// A service given by the caller is the service segment of every path of the
/// plan; without one, `mkrepo.service` is.
pub proof fn lemma_service_precedence(
    config: ConfigView,
    author: Option<Seq<char>>,
    service: Option<Seq<char>>,
    repository: Seq<char>,
    message: Option<Seq<char>>,
    template: Option<Seq<char>>,
    separator: char,
    i: int,
)
    requires
        config.ghq_root is Some,
        resolved_author(config, author) is Some,
        0 <= i < steps_len(template),
    ensures
        path_of(planned(config, author, service, repository, message, template, separator)->Ok_0[i])
            == repository_path(
            config.ghq_root->0,
            if service is Some {
                service->0
            } else {
                config.mkrepo_service
            },
            resolved_author(config, author)->0,
            repository,
            separator,
        ),
{
}

/// Without a message from the caller, the git step of a plan carries the
/// message "Initial commit".
pub proof fn lemma_default_commit_message(
    config: ConfigView,
    author: Option<Seq<char>>,
    service: Option<Seq<char>>,
    repository: Seq<char>,
    template: Option<Seq<char>>,
    separator: char,
)
    requires
        planned(config, author, service, repository, None, template, separator) is Ok,
    ensures
        planned(config, author, service, repository, None, template, separator)->Ok_0[1] matches
            CommandView::InitializeGit { first_commit_message, .. } && first_commit_message
            == "Initial commit"@,
{
}

/// A named template adds exactly one step, after the git step, that expands
/// that template; without one the plan has the two steps alone.
pub proof fn lemma_template_inclusion(
    config: ConfigView,
    author: Option<Seq<char>>,
    service: Option<Seq<char>>,
    repository: Seq<char>,
    message: Option<Seq<char>>,
    template: Option<Seq<char>>,
    separator: char,
)
    requires
        planned(config, author, service, repository, message, template, separator) is Ok,
    ensures
        ({
            let plan = planned(config, author, service, repository, message, template, separator)->Ok_0;
            &&& plan[0] is CreateDirectory
            &&& plan[1] is InitializeGit
            &&& template matches Some(t) ==> (plan.len() == 3 && plan[2]
                == CommandView::ExpandProjectTemplate { template_name: t, path: path_of(plan[0]) })
            &&& template is None ==> plan.len() == 2
            &&& forall|j: int|
                0 <= j < plan.len() && #[trigger] plan[j] is ExpandProjectTemplate ==> j == 2
        }),
{
}

fn join_path(base: String, part: &str, separator: char) -> (r: String)
    ensures
        r@ == joined(base@, part@, separator),
{
    let n = base.as_str().unicode_len();
    let mut out = base;
    if n > 0 {
        let last = out.as_str().get_char(n - 1);
        if !(last == '/' || last == separator) {
            push_char(&mut out, separator);
        }
    }
    out.append(part);
    out
}

/// Builds the plan for a repository on a host whose main separator is `separator`.
pub fn plan_commands(
    config: &Config,
    author: Option<&str>,
    service_name: Option<&str>,
    repository_name: &str,
    first_commit_message: Option<&str>,
    project_name: Option<&str>,
    separator: char,
) -> (r: Result<Vec<CommandType>, PlanError>)
    ensures
        plan_view(r) == planned(
            config@,
            str_opt(author),
            str_opt(service_name),
            repository_name@,
            str_opt(first_commit_message),
            str_opt(project_name),
            separator,
        ),
{
    let root = match &config.ghq_root {
        Some(root) => root,
        None => return Err(PlanError::MissingRoot),
    };
    let repository_author: &str = match author {
        Some(a) => a,
        None => match &config.mkrepo_username {
            Some(u) => u.as_str(),
            None => match &config.user_name {
                Some(u) => u.as_str(),
                None => return Err(PlanError::MissingAuthor),
            },
        },
    };
    let service: &str = match service_name {
        Some(s) => s,
        None => config.mkrepo_service.as_str(),
    };
    let joined_path = join_path(
        join_path(join_path(root.clone(), service, separator), repository_author, separator),
        repository_name,
        separator,
    );
    let path = normalize_with(joined_path.as_str(), separator);
    let message = match first_commit_message {
        Some(m) => m.to_owned(),
        None => "Initial commit".to_owned(),
    };
    let mut commands: Vec<CommandType> = Vec::new();
    commands.push(CommandType::CreateDirectory { path: path.clone() });
    commands.push(CommandType::InitializeGit { first_commit_message: message, path: path.clone() });
    match project_name {
        Some(t) => {
            commands.push(CommandType::ExpandProjectTemplate { template_name: t.to_owned(), path });
        },
        None => {},
    }
    proof {
        let ghost p = planned(
            config@,
            str_opt(author),
            str_opt(service_name),
            repository_name@,
            str_opt(first_commit_message),
            str_opt(project_name),
            separator,
        );
        assert(commands_view(commands@) =~= p->Ok_0);
    }
    Ok(commands)
}

/// Builds the plan for a repository on this host.
pub fn build_commands(
    config: Config,
    author: Option<&str>,
    service_name: Option<&str>,
    repository_name: &str,
    first_commit_message: Option<&str>,
    project_name: Option<&str>,
) -> (r: Result<Vec<CommandType>, PlanError>)
    ensures
        exists|separator: char|
            plan_view(r) == planned(
                config@,
                str_opt(author),
                str_opt(service_name),
                repository_name@,
                str_opt(first_commit_message),
                str_opt(project_name),
                separator,
            ),
{
    plan_commands(
        &config,
        author,
        service_name,
        repository_name,
        first_commit_message,
        project_name,
        host_separator(),
    )
}

} // verus!
