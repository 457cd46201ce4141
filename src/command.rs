use vstd::prelude::*;

verus! {

/// One provisioning step of a plan.
#[derive(Debug, PartialEq)]
pub enum CommandType {
    CreateDirectory { path: String },
    InitializeGit { first_commit_message: String, path: String },
    ExpandProjectTemplate { template_name: String, path: String },
}

/// The mathematical value of a `CommandType`: its strings as character sequences.
pub enum CommandView {
    CreateDirectory { path: Seq<char> },
    InitializeGit { first_commit_message: Seq<char>, path: Seq<char> },
    ExpandProjectTemplate { template_name: Seq<char>, path: Seq<char> },
}

impl View for CommandType {
    type V = CommandView;

    open spec fn view(&self) -> CommandView {
        match self {
            CommandType::CreateDirectory { path } => CommandView::CreateDirectory { path: path@ },
            CommandType::InitializeGit { first_commit_message, path } => CommandView::InitializeGit {
                first_commit_message: first_commit_message@,
                path: path@,
            },
            CommandType::ExpandProjectTemplate { template_name, path } =>
                CommandView::ExpandProjectTemplate { template_name: template_name@, path: path@ },
        }
    }
}

/// The line that describes a step without performing it.
pub open spec fn description(c: CommandView) -> Seq<char> {
    match c {
        CommandView::CreateDirectory { path } => "CreateDirectory: "@ + path,
        CommandView::InitializeGit { first_commit_message, path } => "InitializeGit: "@
            + first_commit_message + " "@ + path,
        CommandView::ExpandProjectTemplate { template_name, path } => "ExpandProjectTemplate: "@
            + template_name + " "@ + path,
    }
}

impl CommandType {
    /// The line that describes this step without performing it.
    pub fn describe(&self) -> (r: String)
        ensures
            r@ == description(self@),
    {
        match self {
            CommandType::CreateDirectory { path } => {
                let mut line = "CreateDirectory: ".to_owned();
                line.append(path.as_str());
                line
            },
            CommandType::InitializeGit { first_commit_message, path } => {
                let mut line = "InitializeGit: ".to_owned();
                line.append(first_commit_message.as_str());
                line.append(" ");
                line.append(path.as_str());
                line
            },
            CommandType::ExpandProjectTemplate { template_name, path } => {
                let mut line = "ExpandProjectTemplate: ".to_owned();
                line.append(template_name.as_str());
                line.append(" ");
                line.append(path.as_str());
                line
            },
        }
    }
}

/// The views of a sequence of commands, in order.
pub open spec fn commands_view(commands: Seq<CommandType>) -> Seq<CommandView> {
    commands.map_values(|c: CommandType| c@)
}

/// Whether `c` separates path components on a host whose main separator is
/// `separator`: `/` is accepted everywhere, the main separator too.
pub open spec fn separates(c: char, separator: char) -> bool {
    c == '/' || c == separator
}

/// `path` with every separator replaced by the main one.
pub open spec fn normalized(path: Seq<char>, separator: char) -> Seq<char> {
    path.map_values(|c: char| if separates(c, separator) { separator } else { c })
}

/// Relies on std::path::MAIN_SEPARATOR, the main separator of this host.
#[verifier::external_body]
pub(crate) fn host_separator() -> (r: char) {
    std::path::MAIN_SEPARATOR
}

/// Relies on String::push: the character is appended at the end.
#[verifier::external_body]
pub(crate) fn push_char(s: &mut String, c: char)
    ensures
        final(s)@ == old(s)@.push(c),
{
    s.push(c)
}

/// Replaces every separator of `path` by `separator`.
pub fn normalize_with(path: &str, separator: char) -> (r: String)
    ensures
        r@ == normalized(path@, separator),
{
    let n = path.unicode_len();
    let mut out = String::new();
    let mut i: usize = 0;
    while i < n
        invariant
            n == path@.len(),
            i <= n,
            out@ == normalized(path@.subrange(0, i as int), separator),
        decreases n - i,
    {
        let c = path.get_char(i);
        let d = if c == '/' || c == separator { separator } else { c };
        push_char(&mut out, d);
        proof {
            assert(path@.subrange(0, i + 1) =~= path@.subrange(0, i as int).push(c));
        }
        i = i + 1;
        assert(out@ =~= normalized(path@.subrange(0, i as int), separator));
    }
    assert(path@.subrange(0, n as int) =~= path@);
    out
}

/// Replaces every separator of `path` by this host's main separator.
pub fn normalize_seps(path: &str) -> (r: String)
    ensures
        exists|separator: char| r@ == normalized(path@, separator),
{
    normalize_with(path, host_separator())
}

} // verus!
