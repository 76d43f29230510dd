//! Classification of one input line into a shell command.
//!
//! The head token picks the command, case-insensitively; the remaining
//! tokens are positional arguments, validated per command. Directory
//! sub-commands carry their arguments already typed; malformed argument
//! lists yield [`Command::InvalidArgs`], and an unrecognized head yields
//! [`Command::Unknown`] with the normalized line.

use vstd::prelude::*;
use vstd::string::StrSliceExecFns;
use vstd::string::StringExecFns;
use crate::numbers::{is_u64_numeral, numeral_value, parse_u64};
use crate::text::{ci_eq, eq_ignore_case, normalized, trim_newline};
use crate::tokens::{split_spaces, token_views, tokens_of};

verus! {

/// A validated directory-service operation with typed arguments.
#[derive(Debug, PartialEq)]
pub enum DirectoryCommand {
    /// Publish key material `value` for `user`.
    Publish(String, String),
    /// Look up a proof for `user`.
    Lookup(String),
    /// Look up the key history of `user`.
    KeyHistory(String),
    /// Retrieve an audit proof between a start and an end epoch.
    Audit(u64, u64),
    /// Retrieve the root hash at the given epoch, or the latest one.
    RootHash(Option<u64>),
}

/// The mathematical value of a [`DirectoryCommand`]: the same variants over
/// character sequences.
#[verifier::ext_equal]
pub enum DirectoryCommandModel {
    Publish(Seq<char>, Seq<char>),
    Lookup(Seq<char>),
    KeyHistory(Seq<char>),
    Audit(u64, u64),
    RootHash(Option<u64>),
}

impl View for DirectoryCommand {
    type V = DirectoryCommandModel;

    open spec fn view(&self) -> DirectoryCommandModel {
        match self {
            DirectoryCommand::Publish(u, v) => DirectoryCommandModel::Publish(u@, v@),
            DirectoryCommand::Lookup(u) => DirectoryCommandModel::Lookup(u@),
            DirectoryCommand::KeyHistory(u) => DirectoryCommandModel::KeyHistory(u@),
            DirectoryCommand::Audit(a, b) => DirectoryCommandModel::Audit(*a, *b),
            DirectoryCommand::RootHash(e) => DirectoryCommandModel::RootHash(*e),
        }
    }
}

/// The outcome of parsing one input line.
#[derive(Debug, PartialEq)]
pub enum Command {
    /// Render the help banner.
    Help,
    /// Leave the shell.
    Exit,
    /// Flush the backing store.
    Flush,
    /// Print runtime diagnostics.
    Info,
    /// A validated directory sub-command.
    Directory(DirectoryCommand),
    /// The head named a known command, but its arguments were rejected;
    /// carries a message naming the command and pointing to help.
    InvalidArgs(String),
    /// The head named no known command; carries the normalized line.
    Unknown(String),
}

/// The mathematical value of a [`Command`].
#[verifier::ext_equal]
pub enum CommandModel {
    Help,
    Exit,
    Flush,
    Info,
    Directory(DirectoryCommandModel),
    InvalidArgs(Seq<char>),
    Unknown(Seq<char>),
}

impl View for Command {
    type V = CommandModel;

    open spec fn view(&self) -> CommandModel {
        match self {
            Command::Help => CommandModel::Help,
            Command::Exit => CommandModel::Exit,
            Command::Flush => CommandModel::Flush,
            Command::Info => CommandModel::Info,
            Command::Directory(d) => CommandModel::Directory(d@),
            Command::InvalidArgs(m) => CommandModel::InvalidArgs(m@),
            Command::Unknown(t) => CommandModel::Unknown(t@),
        }
    }
}

/// The view of an optional directory command.
pub open spec fn dir_opt_view(r: Option<DirectoryCommand>) -> Option<DirectoryCommandModel> {
    match r {
        Some(d) => Some(d@),
        None => None,
    }
}

/// The publish arguments of a token sequence: at least two arguments after
/// the head, taken verbatim; fewer is a rejection.
pub open spec fn publish_of(toks: Seq<Seq<char>>) -> Option<DirectoryCommandModel> {
    if toks.len() < 3 {
        None
    } else {
        Some(DirectoryCommandModel::Publish(toks[1], toks[2]))
    }
}

/// The lookup argument of a token sequence: one argument after the head,
/// taken verbatim; fewer is a rejection.
pub open spec fn lookup_of(toks: Seq<Seq<char>>) -> Option<DirectoryCommandModel> {
    if toks.len() < 2 {
        None
    } else {
        Some(DirectoryCommandModel::Lookup(toks[1]))
    }
}

/// The key-history argument of a token sequence: one argument after the
/// head, taken verbatim; fewer is a rejection.
pub open spec fn history_of(toks: Seq<Seq<char>>) -> Option<DirectoryCommandModel> {
    if toks.len() < 2 {
        None
    } else {
        Some(DirectoryCommandModel::KeyHistory(toks[1]))
    }
}

/// The audit arguments of a token sequence: two arguments after the head,
/// each a base-10 unsigned 64-bit numeral; anything else is a rejection.
pub open spec fn audit_of(toks: Seq<Seq<char>>) -> Option<DirectoryCommandModel> {
    if toks.len() >= 3 && is_u64_numeral(toks[1]) && is_u64_numeral(toks[2]) {
        Some(
            DirectoryCommandModel::Audit(
                numeral_value(toks[1]) as u64,
                numeral_value(toks[2]) as u64,
            ),
        )
    } else {
        None
    }
}

/// The root-hash argument of a token sequence: the epoch is the first
/// argument when it parses as an unsigned 64-bit numeral, and absent
/// otherwise. This validator never rejects: a missing or unparsable epoch
/// means "use the latest epoch".
pub open spec fn root_hash_of(toks: Seq<Seq<char>>) -> DirectoryCommandModel {
    if toks.len() >= 2 && is_u64_numeral(toks[1]) {
        DirectoryCommandModel::RootHash(Some(numeral_value(toks[1]) as u64))
    } else {
        DirectoryCommandModel::RootHash(None)
    }
}

/// The diagnostic message for a known command whose arguments were
/// rejected, with `help` standing for the (possibly colored) help keyword.
pub open spec fn invalid_message(cmd: Seq<char>, help: Seq<char>) -> Seq<char> {
    "Command "@ + cmd + " received invalid argments. Check "@ + help + " for syntax"@
}

/// Either a directory command, or the invalid-arguments diagnostic for the
/// command named `cmd`.
pub open spec fn dir_outcome(
    r: Option<DirectoryCommandModel>,
    cmd: Seq<char>,
    help: Seq<char>,
) -> CommandModel {
    match r {
        Some(d) => CommandModel::Directory(d),
        None => CommandModel::InvalidArgs(invalid_message(cmd, help)),
    }
}

/// The command denoted by the raw input line `line`, with `help` standing
/// for the rendering of the help keyword inside diagnostics. The line is
/// first normalized, then split on spaces; the head token is classified
/// case-insensitively, and the argument tokens are passed to the chosen
/// validator verbatim.
pub open spec fn command_of(line: Seq<char>, help: Seq<char>) -> CommandModel {
    let norm = normalized(line);
    let toks = tokens_of(norm);
    if toks.len() == 0 {
        CommandModel::Unknown(norm)
    } else {
        let head = toks[0];
        if ci_eq(head, "exit"@) || ci_eq(head, "x"@) {
            CommandModel::Exit
        } else if ci_eq(head, "help"@) || ci_eq(head, "?"@) {
            CommandModel::Help
        } else if ci_eq(head, "flush"@) {
            CommandModel::Flush
        } else if ci_eq(head, "info"@) {
            CommandModel::Info
        } else if ci_eq(head, "publish"@) {
            dir_outcome(publish_of(toks), "publish"@, help)
        } else if ci_eq(head, "lookup"@) {
            dir_outcome(lookup_of(toks), "lookup"@, help)
        } else if ci_eq(head, "history"@) {
            dir_outcome(history_of(toks), "history"@, help)
        } else if ci_eq(head, "audit"@) {
            dir_outcome(audit_of(toks), "audit"@, help)
        } else if ci_eq(head, "root"@) || ci_eq(head, "root_hash"@) {
            CommandModel::Directory(root_hash_of(toks))
        } else {
            CommandModel::Unknown(norm)
        }
    }
}

/// What rendering the help keyword through the terminal colorizer may
/// yield: the text itself when coloring is off, or the text between the
/// ANSI green and reset escape sequences when it is on.
pub open spec fn green_outcome(out: Seq<char>, input: Seq<char>) -> bool {
    out == input || out == "\u{1b}[32m"@ + input + "\u{1b}[0m"@
}

/// Relies on colored::Colorize::green and the Display of colored's
/// ColoredString: for an input free of escape characters, the rendered
/// text is the input unchanged when coloring is disabled, and otherwise
/// the input wrapped in the ANSI green and reset escape sequences.
#[verifier::external_body]
fn green_text(s: &str) -> (r: String)
    requires
        forall|i: int| 0 <= i < s@.len() ==> s@[i] != '\u{1b}',
    ensures
        green_outcome(r@, s@),
{
    format!("{}", colored::Colorize::green(s))
}

impl Command {
    /// Builds the diagnostic message for the known command `cmd` whose
    /// arguments were rejected.
    fn invalid_args_message(cmd: &str, help: &str) -> (m: String)
        ensures
            m@ == invalid_message(cmd@, help@),
    {
        let mut m: String = "Command ".to_owned();
        m.append(cmd);
        m.append(" received invalid argments. Check ");
        m.append(help);
        m.append(" for syntax");
        m
    }

    /// Validates the arguments of a `publish` line.
    pub fn publish(parts: &Vec<String>) -> (r: Option<DirectoryCommand>)
        ensures
            dir_opt_view(r) == publish_of(token_views(parts@)),
    {
        if parts.len() < 3 {
            return None;
        }
        let a = parts[1].clone();
        let b = parts[2].clone();
        Some(DirectoryCommand::Publish(a, b))
    }

    /// Validates the arguments of a `lookup` line.
    pub fn lookup(parts: &Vec<String>) -> (r: Option<DirectoryCommand>)
        ensures
            dir_opt_view(r) == lookup_of(token_views(parts@)),
    {
        if parts.len() < 2 {
            return None;
        }
        let a = parts[1].clone();
        Some(DirectoryCommand::Lookup(a))
    }

    /// Validates the arguments of a `history` line.
    pub fn history(parts: &Vec<String>) -> (r: Option<DirectoryCommand>)
        ensures
            dir_opt_view(r) == history_of(token_views(parts@)),
    {
        if parts.len() < 2 {
            return None;
        }
        let a = parts[1].clone();
        Some(DirectoryCommand::KeyHistory(a))
    }

    /// Validates the arguments of an `audit` line. No ordering between the
    /// two epochs is imposed here; that is the execution engine's concern.
    pub fn audit(parts: &Vec<String>) -> (r: Option<DirectoryCommand>)
        ensures
            dir_opt_view(r) == audit_of(token_views(parts@)),
    {
        if parts.len() < 3 {
            return None;
        }
        let a = parse_u64(parts[1].as_str());
        let b = parse_u64(parts[2].as_str());
        match (a, b) {
            (Some(x), Some(y)) => Some(DirectoryCommand::Audit(x, y)),
            _ => None,
        }
    }

    /// Reads the optional epoch of a `root` line. Never rejects: an
    /// unparsable epoch degrades to the default, it is not an error.
    pub fn root_hash(parts: &Vec<String>) -> (r: DirectoryCommand)
        ensures
            r@ == root_hash_of(token_views(parts@)),
    {
        let mut epoch: Option<u64> = None;
        if parts.len() > 1 {
            epoch = parse_u64(parts[1].as_str());
        }
        DirectoryCommand::RootHash(epoch)
    }

    /// Parses one input line against a fixed rendering `help` of the help
    /// keyword, normalizing the line in place. The result is exactly the
    /// command the line denotes.
    pub fn parse_with_help(text: &mut String, help: &str) -> (c: Command)
        ensures
            final(text)@ == normalized(old(text)@),
            c@ == command_of(old(text)@, help@),
    {
        trim_newline(text);
        let toks = split_spaces(text.as_str());
        if toks.len() == 0 {
            return Command::Unknown(text.clone());
        }
        let head: &String = &toks[0];
        if eq_ignore_case(head.as_str(), "exit") || eq_ignore_case(head.as_str(), "x") {
            Command::Exit
        } else if eq_ignore_case(head.as_str(), "help") || eq_ignore_case(head.as_str(), "?") {
            Command::Help
        } else if eq_ignore_case(head.as_str(), "flush") {
            Command::Flush
        } else if eq_ignore_case(head.as_str(), "info") {
            Command::Info
        } else if eq_ignore_case(head.as_str(), "publish") {
            match Self::publish(&toks) {
                Some(d) => Command::Directory(d),
                None => Command::InvalidArgs(Self::invalid_args_message("publish", help)),
            }
        } else if eq_ignore_case(head.as_str(), "lookup") {
            match Self::lookup(&toks) {
                Some(d) => Command::Directory(d),
                None => Command::InvalidArgs(Self::invalid_args_message("lookup", help)),
            }
        } else if eq_ignore_case(head.as_str(), "history") {
            match Self::history(&toks) {
                Some(d) => Command::Directory(d),
                None => Command::InvalidArgs(Self::invalid_args_message("history", help)),
            }
        } else if eq_ignore_case(head.as_str(), "audit") {
            match Self::audit(&toks) {
                Some(d) => Command::Directory(d),
                None => Command::InvalidArgs(Self::invalid_args_message("audit", help)),
            }
        } else if eq_ignore_case(head.as_str(), "root") || eq_ignore_case(head.as_str(), "root_hash") {
            Command::Directory(Self::root_hash(&toks))
        } else {
            Command::Unknown(text.clone())
        }
    }

    /// Parses one input line, normalizing it in place. The help keyword
    /// inside diagnostics is rendered through the terminal colorizer, so
    /// the result is the denoted command for some such rendering.
    pub fn parse(text: &mut String) -> (c: Command)
        ensures
            final(text)@ == normalized(old(text)@),
            exists|h: Seq<char>|
                #[trigger] green_outcome(h, "help"@) && c@ == command_of(old(text)@, h),
    {
        proof {
            reveal_strlit("help");
        }
        let help_colored = green_text("help");
        let c = Self::parse_with_help(text, help_colored.as_str());
        proof {
            let h = help_colored@;
            assert(green_outcome(h, "help"@) && c@ == command_of(old(text)@, h));
        }
        c
    }
}

} // verus!
