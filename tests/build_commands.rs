use mkrepo::command::{normalize_seps, CommandType};
use mkrepo::config::Config;
use mkrepo::plan::{build_commands, plan_commands, PlanError};

fn himanoa_config() -> Config {
    Config {
        user_name: Some("himanoa".to_owned()),
        ghq_root: Some(normalize_seps("/home/user/src").into()),
        mkrepo_service: "github.com".to_owned(),
        mkrepo_username: None,
    }
}

#[test]
pub fn build_commands_return_to_create_directory_and_initialize_git() {
    let c = himanoa_config();
    assert_eq!(
        build_commands(c, None, None, "mkrepo", Some("Initial commit"), None).unwrap(),
        vec![
            CommandType::CreateDirectory {
                path: normalize_seps("/home/user/src/github.com/himanoa/mkrepo")
            },
            CommandType::InitializeGit {
                first_commit_message: String::from("Initial commit"),
                path: normalize_seps("/home/user/src/github.com/himanoa/mkrepo")
            }
        ]
    );
}

#[test]
pub fn build_commands_return_to_create_directory_and_initialize_git_when_first_commit_message_is_none(
) {
    let c = Config {
        user_name: Some("himanoa".to_owned()),
        ghq_root: Some("/home/user/src".into()),
        mkrepo_service: "github.com".to_owned(),
        mkrepo_username: None,
    };
    assert_eq!(
        build_commands(c, None, None, "mkrepo", None, None).unwrap(),
        vec![
            CommandType::CreateDirectory {
                path: normalize_seps("/home/user/src/github.com/himanoa/mkrepo")
            },
            CommandType::InitializeGit {
                first_commit_message: String::from("Initial commit"),
                path: normalize_seps("/home/user/src/github.com/himanoa/mkrepo")
            }
        ]
    );
}

#[test]
pub fn build_commands_return_to_create_directory_and_initialize_git_when_author_is_exist() {
    let c = himanoa_config();
    assert_eq!(
        build_commands(c, Some("h1manoa"), None, "mkrepo", None, None).unwrap(),
        vec![
            CommandType::CreateDirectory {
                path: normalize_seps("/home/user/src/github.com/h1manoa/mkrepo")
            },
            CommandType::InitializeGit {
                first_commit_message: String::from("Initial commit"),
                path: normalize_seps("/home/user/src/github.com/h1manoa/mkrepo")
            }
        ]
    );
}

#[test]
pub fn build_commands_return_to_create_directory_and_initialize_git_when_service_is_exist() {
    let c = himanoa_config();
    assert_eq!(
        build_commands(c, None, Some("bitbucket.com"), "mkrepo", None, None).unwrap(),
        vec![
            CommandType::CreateDirectory {
                path: normalize_seps("/home/user/src/bitbucket.com/himanoa/mkrepo")
            },
            CommandType::InitializeGit {
                first_commit_message: String::from("Initial commit"),
                path: normalize_seps("/home/user/src/bitbucket.com/himanoa/mkrepo")
            }
        ]
    );
}

#[test]
pub fn build_commands_return_to_create_directory_and_initialize_git_when_service_and_expand_project_template_is_exist(
) {
    let c = himanoa_config();
    assert_eq!(
        build_commands(c, None, Some("bitbucket.com"), "mkrepo", None, Some("typescript")).unwrap(),
        vec![
            CommandType::CreateDirectory {
                path: normalize_seps("/home/user/src/bitbucket.com/himanoa/mkrepo")
            },
            CommandType::InitializeGit {
                first_commit_message: String::from("Initial commit"),
                path: normalize_seps("/home/user/src/bitbucket.com/himanoa/mkrepo")
            },
            CommandType::ExpandProjectTemplate {
                template_name: String::from("typescript"),
                path: normalize_seps("/home/user/src/bitbucket.com/himanoa/mkrepo")
            }
        ]
    );
}

#[test]
fn concrete_plan_uses_ghq_layout() {
    let c = himanoa_config();
    let plan = plan_commands(&c, None, None, "mkrepo", None, None, '/').unwrap();
    assert_eq!(
        plan,
        vec![
            CommandType::CreateDirectory { path: "/home/user/src/github.com/himanoa/mkrepo".to_owned() },
            CommandType::InitializeGit {
                first_commit_message: "Initial commit".to_owned(),
                path: "/home/user/src/github.com/himanoa/mkrepo".to_owned()
            }
        ]
    );
}

#[test]
fn plan_is_deterministic() {
    let a = build_commands(himanoa_config(), Some("x"), Some("s"), "r", Some("m"), Some("t")).unwrap();
    let b = build_commands(himanoa_config(), Some("x"), Some("s"), "r", Some("m"), Some("t")).unwrap();
    assert_eq!(a, b);
    assert_eq!(a.len(), 3);
}

#[test]
fn given_message_is_kept() {
    let plan = plan_commands(&himanoa_config(), None, None, "r", Some("first"), None, '/').unwrap();
    assert_eq!(
        plan[1],
        CommandType::InitializeGit { first_commit_message: "first".to_owned(), path: "/home/user/src/github.com/himanoa/r".to_owned() }
    );
}

#[test]
fn mkrepo_username_comes_before_user_name() {
    let mut c = himanoa_config();
    c.mkrepo_username = Some("alias".to_owned());
    let plan = plan_commands(&c, None, None, "r", None, None, '/').unwrap();
    assert_eq!(plan[0], CommandType::CreateDirectory { path: "/home/user/src/github.com/alias/r".to_owned() });
    let plan = plan_commands(&c, Some("given"), None, "r", None, None, '/').unwrap();
    assert_eq!(plan[0], CommandType::CreateDirectory { path: "/home/user/src/github.com/given/r".to_owned() });
}

#[test]
fn missing_root_is_an_error() {
    let mut c = himanoa_config();
    c.ghq_root = None;
    assert_eq!(build_commands(c, Some("a"), None, "r", None, None), Err(PlanError::MissingRoot));
}

#[test]
fn missing_author_is_an_error() {
    let mut c = himanoa_config();
    c.user_name = None;
    assert_eq!(build_commands(c, None, None, "r", None, None), Err(PlanError::MissingAuthor));
}

#[test]
fn missing_root_is_reported_before_missing_author() {
    let c = Config { user_name: None, ghq_root: None, mkrepo_service: "s".to_owned(), mkrepo_username: None };
    assert_eq!(build_commands(c, None, None, "r", None, None), Err(PlanError::MissingRoot));
}

#[test]
fn root_with_trailing_separator_gets_no_second_one() {
    let mut c = himanoa_config();
    c.ghq_root = Some("/src/".to_owned());
    let plan = plan_commands(&c, None, None, "r", None, None, '/').unwrap();
    assert_eq!(plan[0], CommandType::CreateDirectory { path: "/src/github.com/himanoa/r".to_owned() });
}

#[test]
fn plan_uses_the_given_separator() {
    let mut c = himanoa_config();
    c.ghq_root = Some("C:/src".to_owned());
    let plan = plan_commands(&c, None, None, "r", None, None, '\\').unwrap();
    assert_eq!(plan[0], CommandType::CreateDirectory { path: "C:\\src\\github.com\\himanoa\\r".to_owned() });
}
