//! Laws of the parser, proved over its mathematical model.

use vstd::prelude::*;
use crate::commands::{
    command_of, dir_outcome, publish_of, lookup_of, history_of, audit_of, root_hash_of,
    CommandModel, DirectoryCommandModel,
};
use crate::text::{ci_eq, fold_code, normalized};
use crate::tokens::tokens_of;

verus! {

/// A head that matches `a` up to case cannot also match `b`, when `a` and
/// `b` differ in length or fold apart at position `w`.
proof fn lemma_ci_excludes(h: Seq<char>, a: Seq<char>, b: Seq<char>, w: int)
    requires
        ci_eq(h, a),
        a.len() == b.len() ==> 0 <= w < a.len() && fold_code(a[w] as u32) != fold_code(
            b[w] as u32,
        ),
    ensures
        !ci_eq(h, b),
{
    if ci_eq(h, b) {
        assert(fold_code(h[w] as u32) == fold_code(a[w] as u32));
        assert(fold_code(h[w] as u32) == fold_code(b[w] as u32));
    }
}

proof fn reveal_keywords()
    ensures
        "exit"@ =~= seq!['e', 'x', 'i', 't'],
        "x"@ =~= seq!['x'],
        "help"@ =~= seq!['h', 'e', 'l', 'p'],
        "?"@ =~= seq!['?'],
        "flush"@ =~= seq!['f', 'l', 'u', 's', 'h'],
        "info"@ =~= seq!['i', 'n', 'f', 'o'],
        "publish"@ =~= seq!['p', 'u', 'b', 'l', 'i', 's', 'h'],
        "lookup"@ =~= seq!['l', 'o', 'o', 'k', 'u', 'p'],
        "history"@ =~= seq!['h', 'i', 's', 't', 'o', 'r', 'y'],
        "audit"@ =~= seq!['a', 'u', 'd', 'i', 't'],
        "root"@ =~= seq!['r', 'o', 'o', 't'],
        "root_hash"@ =~= seq!['r', 'o', 'o', 't', '_', 'h', 'a', 's', 'h'],
{
    reveal_strlit("exit");
    reveal_strlit("x");
    reveal_strlit("help");
    reveal_strlit("?");
    reveal_strlit("flush");
    reveal_strlit("info");
    reveal_strlit("publish");
    reveal_strlit("lookup");
    reveal_strlit("history");
    reveal_strlit("audit");
    reveal_strlit("root");
    reveal_strlit("root_hash");
}

/// A line whose head token matches a shell keyword up to ASCII case is
/// classified by that keyword alone: letter case and trailing tokens never
/// matter, and the resulting command carries no payload.
pub proof fn lemma_shell_heads(line: Seq<char>, help: Seq<char>)
    ensures
        ({
            let toks = tokens_of(normalized(line));
            &&& toks.len() > 0 && (ci_eq(toks[0], "exit"@) || ci_eq(toks[0], "x"@)) ==> command_of(
                line,
                help,
            ) == CommandModel::Exit
            &&& toks.len() > 0 && (ci_eq(toks[0], "help"@) || ci_eq(toks[0], "?"@)) ==> command_of(
                line,
                help,
            ) == CommandModel::Help
            &&& toks.len() > 0 && ci_eq(toks[0], "flush"@) ==> command_of(line, help)
                == CommandModel::Flush
            &&& toks.len() > 0 && ci_eq(toks[0], "info"@) ==> command_of(line, help)
                == CommandModel::Info
        }),
{
    reveal_keywords();
    let toks = tokens_of(normalized(line));
    if toks.len() > 0 {
        let h = toks[0];
        if ci_eq(h, "help"@) {
            lemma_ci_excludes(h, "help"@, "exit"@, 0);
        }
        if ci_eq(h, "?"@) {
            lemma_ci_excludes(h, "?"@, "x"@, 0);
        }
        if ci_eq(h, "info"@) {
            lemma_ci_excludes(h, "info"@, "exit"@, 0);
            lemma_ci_excludes(h, "info"@, "help"@, 0);
        }
    }
}

/// A line whose head token matches no keyword of the vocabulary, or that
/// has no head token at all, is classified as unknown, and the unknown
/// command carries the normalized line.
pub proof fn lemma_unknown(line: Seq<char>, help: Seq<char>)
    ensures
        ({
            let norm = normalized(line);
            let toks = tokens_of(norm);
            (toks.len() == 0 || !(ci_eq(toks[0], "exit"@) || ci_eq(toks[0], "x"@) || ci_eq(
                toks[0],
                "help"@,
            ) || ci_eq(toks[0], "?"@) || ci_eq(toks[0], "flush"@) || ci_eq(toks[0], "info"@)
                || ci_eq(toks[0], "publish"@) || ci_eq(toks[0], "lookup"@) || ci_eq(
                toks[0],
                "history"@,
            ) || ci_eq(toks[0], "audit"@) || ci_eq(toks[0], "root"@) || ci_eq(
                toks[0],
                "root_hash"@,
            ))) ==> command_of(line, help) == CommandModel::Unknown(norm)
        }),
{
}

/// Case-insensitivity applies to the head token only: a line whose head
/// matches a directory keyword up to case hands its argument tokens to that
/// command verbatim, letter case included.
pub proof fn lemma_directory_heads(line: Seq<char>, help: Seq<char>)
    ensures
        ({
            let toks = tokens_of(normalized(line));
            &&& toks.len() > 0 && ci_eq(toks[0], "publish"@) ==> command_of(line, help)
                == dir_outcome(publish_of(toks), "publish"@, help)
            &&& toks.len() > 0 && ci_eq(toks[0], "lookup"@) ==> command_of(line, help)
                == dir_outcome(lookup_of(toks), "lookup"@, help)
            &&& toks.len() > 0 && ci_eq(toks[0], "history"@) ==> command_of(line, help)
                == dir_outcome(history_of(toks), "history"@, help)
            &&& toks.len() > 0 && ci_eq(toks[0], "audit"@) ==> command_of(line, help)
                == dir_outcome(audit_of(toks), "audit"@, help)
            &&& toks.len() > 0 && (ci_eq(toks[0], "root"@) || ci_eq(toks[0], "root_hash"@))
                ==> command_of(line, help) == CommandModel::Directory(root_hash_of(toks))
            &&& toks.len() >= 3 && ci_eq(toks[0], "publish"@) ==> command_of(line, help)
                == CommandModel::Directory(DirectoryCommandModel::Publish(toks[1], toks[2]))
        }),
{
    reveal_keywords();
    let toks = tokens_of(normalized(line));
    if toks.len() > 0 {
        let h = toks[0];
        if ci_eq(h, "history"@) {
            lemma_ci_excludes(h, "history"@, "publish"@, 0);
        }
        if ci_eq(h, "audit"@) {
            lemma_ci_excludes(h, "audit"@, "flush"@, 0);
        }
        if ci_eq(h, "root"@) {
            lemma_ci_excludes(h, "root"@, "exit"@, 0);
            lemma_ci_excludes(h, "root"@, "help"@, 0);
            lemma_ci_excludes(h, "root"@, "info"@, 0);
        }
    }
}

/// A trailing line feed, or a trailing carriage return and line feed, never
/// affects what a line parses to: normalization strips exactly that ending.
pub proof fn lemma_line_ending_stripped(line: Seq<char>, help: Seq<char>)
    requires
        line.len() == 0 || (line.last() != '\n' && line.last() != '\r'),
    ensures
        command_of(line.push('\n'), help) == command_of(line, help),
        command_of(line.push('\r').push('\n'), help) == command_of(line, help),
{
    assert(line.push('\n').drop_last() =~= line);
    assert(line.push('\r').push('\n').drop_last() =~= line.push('\r'));
    assert(line.push('\r').drop_last() =~= line);
    assert(normalized(line.push('\n')) == line);
    assert(normalized(line.push('\r').push('\n')) == line);
    assert(normalized(line) == line);
}

/// Normalizing a line twice strips no more than normalizing it once, for
/// every line whose one strip does not itself end in a line feed.
pub proof fn lemma_normalized_idempotent(s: Seq<char>)
    requires
        normalized(s).len() == 0 || normalized(s).last() != '\n',
    ensures
        normalized(normalized(s)) == normalized(s),
{
}

} // verus!
