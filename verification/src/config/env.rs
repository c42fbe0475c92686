//! Placeholders of the form `${NAME:default}` in the configuration file, and
//! their expansion from the environment.
//!
//! A placeholder begins with `${`. Its name begins with a capital letter or
//! an underscore and goes on with capital letters, digits and underscores;
//! a colon follows it. The default value reaches from the colon to the next
//! `}`, which must stand on the same line, so that every placeholder of a
//! line is expanded on its own. The first placeholder of a text is the one
//! that begins first; the next is sought behind its end.

use crate::text::{has_prefix, slice_chars, starts_with, str_eq, texts};
use vstd::prelude::*;
use vstd::string::StringExecFns;

verus! {

/// Whether a name may begin with `c`.
pub open spec fn is_name_start(c: char) -> bool {
    ('A' <= c && c <= 'Z') || c == '_'
}

/// Whether a name may go on with `c`.
pub open spec fn is_name_char(c: char) -> bool {
    is_name_start(c) || ('0' <= c && c <= '9')
}

/// The first position at or after `from` that holds no character of a name.
pub open spec fn name_end(s: Seq<char>, from: int) -> int
    decreases s.len() - from,
{
    if 0 <= from < s.len() && is_name_char(s[from]) {
        name_end(s, from + 1)
    } else {
        from
    }
}

/// The first position at or after `from` that holds a closing brace or a
/// line feed, or the length of `s`.
pub open spec fn default_end(s: Seq<char>, from: int) -> int
    decreases s.len() - from,
{
    if 0 <= from < s.len() && s[from] != '}' && s[from] != '\n' {
        default_end(s, from + 1)
    } else {
        from
    }
}

/// A placeholder: its name, its default value, and where the text goes on
/// behind it.
pub struct Placeholder {
    pub name: Seq<char>,
    pub default_value: Seq<char>,
    pub end: int,
}

/// The placeholder that begins at position `i` of `s`, if one does.
pub open spec fn placeholder_at(s: Seq<char>, i: int) -> Option<Placeholder> {
    if 0 <= i && i + 2 < s.len() && s[i] == '$' && s[i + 1] == '{' && is_name_start(s[i + 2]) {
        let colon = name_end(s, i + 2);
        if colon < s.len() && s[colon] == ':' {
            let brace = default_end(s, colon + 1);
            if brace < s.len() && s[brace] == '}' {
                Some(
                    Placeholder {
                        name: s.subrange(i + 2, colon),
                        default_value: s.subrange(colon + 1, brace),
                        end: brace + 1,
                    },
                )
            } else {
                None
            }
        } else {
            None
        }
    } else {
        None
    }
}

/// The value of the variable `name` in the environment `env`: that of the
/// first binding of the name.
pub open spec fn env_value(env: Seq<(Seq<char>, Seq<char>)>, name: Seq<char>) -> Option<Seq<char>>
    decreases env.len(),
{
    if env.len() == 0 {
        None
    } else if env[0].0 == name {
        Some(env[0].1)
    } else {
        env_value(env.drop_first(), name)
    }
}

/// What stands in the place of `p`: the value of its variable, or its
/// default value where the variable is not set.
pub open spec fn replacement(p: Placeholder, env: Seq<(Seq<char>, Seq<char>)>) -> Seq<char> {
    match env_value(env, p.name) {
        Some(value) => value,
        None => p.default_value,
    }
}

/// The expansion of what `s` holds from position `from` on.
pub open spec fn expanded_from(s: Seq<char>, env: Seq<(Seq<char>, Seq<char>)>, from: int) -> Seq<
    char,
>
    decreases s.len() - from,
{
    if from < 0 || from >= s.len() {
        Seq::empty()
    } else {
        match placeholder_at(s, from) {
            Some(p) => if from < p.end <= s.len() {
                replacement(p, env) + expanded_from(s, env, p.end)
            } else {
                Seq::empty()
            },
            None => seq![s[from]] + expanded_from(s, env, from + 1),
        }
    }
}

/// `s` with every placeholder replaced.
pub open spec fn spec_expand(s: Seq<char>, env: Seq<(Seq<char>, Seq<char>)>) -> Seq<char> {
    expanded_from(s, env, 0)
}

/// The bindings of an environment as texts.
pub open spec fn bindings(env: Seq<(String, String)>) -> Seq<(Seq<char>, Seq<char>)> {
    env.map_values(|b: (String, String)| (b.0@, b.1@))
}

/// Whether `c` may go on a name.
fn name_char(c: char) -> (yes: bool)
    ensures
        yes == is_name_char(c),
{
    (c >= 'A' && c <= 'Z') || c == '_' || (c >= '0' && c <= '9')
}

/// The placeholder that begins at position `i` of `s`: the positions of its
/// colon and of its closing brace.
#[verifier::loop_isolation(false)]
fn scan_placeholder(s: &str, i: usize) -> (found: Option<(usize, usize)>)
    requires
        i < s@.len(),
    ensures
        match found {
            Some((colon, brace)) => {
                &&& i + 2 < colon < brace < s@.len()
                &&& placeholder_at(s@, i as int) == Some(
                    Placeholder {
                        name: s@.subrange(i + 2, colon as int),
                        default_value: s@.subrange(colon + 1, brace as int),
                        end: brace + 1,
                    },
                )
            },
            None => placeholder_at(s@, i as int) is None,
        },
{
    let n = s.unicode_len();
    if n - i <= 2 {
        return None;
    }
    if s.get_char(i) != '$' || s.get_char(i + 1) != '{' {
        return None;
    }
    let first = s.get_char(i + 2);
    if !((first >= 'A' && first <= 'Z') || first == '_') {
        return None;
    }
    let mut colon: usize = i + 2;
    while colon < n && name_char(s.get_char(colon))
        invariant
            i + 2 <= colon <= n,
            n == s@.len(),
            name_end(s@, i + 2) == name_end(s@, colon as int),
        decreases n - colon,
    {
        colon += 1;
    }
    assert(name_end(s@, i + 2) == colon);
    assert(colon > i + 2);
    if colon >= n || s.get_char(colon) != ':' {
        return None;
    }
    let mut brace: usize = colon + 1;
    while brace < n && s.get_char(brace) != '}' && s.get_char(brace) != '\n'
        invariant
            colon + 1 <= brace <= n,
            n == s@.len(),
            default_end(s@, colon + 1) == default_end(s@, brace as int),
        decreases n - brace,
    {
        brace += 1;
    }
    assert(default_end(s@, colon + 1) == brace);
    if brace < n && s.get_char(brace) == '}' {
        Some((colon, brace))
    } else {
        None
    }
}

/// The value of the variable `name` in the environment `env`.
pub fn lookup(env: &Vec<(String, String)>, name: &str) -> (value: Option<String>)
    ensures
        crate::text::opt_text(value) == env_value(bindings(env@), name@),
{
    let ghost all = bindings(env@);
    let mut i: usize = 0;
    assert(all.skip(0) =~= all);
    while i < env.len()
        invariant
            0 <= i <= env.len(),
            all == bindings(env@),
            env_value(all, name@) == env_value(all.skip(i as int), name@),
        decreases env.len() - i,
    {
        proof {
            assert(all.skip(i as int)[0] == all[i as int]);
            assert(all.skip(i as int).drop_first() =~= all.skip(i + 1));
        }
        if str_eq(env[i].0.as_str(), name) {
            return Some(env[i].1.clone());
        }
        i += 1;
    }
    None
}

/// Replaces every placeholder of `line` by the value of its variable in
/// `env`, or by its default value where the variable is not set.
pub fn expand_line(line: &str, env: &Vec<(String, String)>) -> (out: String)
    ensures
        out@ == spec_expand(line@, bindings(env@)),
{
    let ghost s = line@;
    let ghost e = bindings(env@);
    let n = line.unicode_len();
    let mut out = String::new();
    let mut i: usize = 0;
    assert(out@ + expanded_from(s, e, 0) =~= expanded_from(s, e, 0));
    while i < n
        invariant
            0 <= i <= n,
            n == s.len(),
            s == line@,
            e == bindings(env@),
            out@ + expanded_from(s, e, i as int) == spec_expand(s, e),
        decreases n - i,
    {
        let ghost before = out@;
        match scan_placeholder(line, i) {
            Some((colon, brace)) => {
                let name = slice_chars(line, i + 2, colon);
                let ghost p = placeholder_at(s, i as int)->Some_0;
                let piece = match lookup(env, name.as_str()) {
                    Some(value) => value,
                    None => slice_chars(line, colon + 1, brace),
                };
                assert(piece@ == replacement(p, e));
                out.append(piece.as_str());
                proof {
                    assert((before + piece@) + expanded_from(s, e, p.end) =~= before + (piece@
                        + expanded_from(s, e, p.end)));
                }
                i = brace + 1;
            },
            None => {
                let piece = slice_chars(line, i, i + 1);
                assert(piece@ =~= seq![s[i as int]]);
                out.append(piece.as_str());
                proof {
                    assert((before + piece@) + expanded_from(s, e, i + 1) =~= before + (piece@
                        + expanded_from(s, e, i + 1)));
                }
                i += 1;
            },
        }
    }
    assert(out@ + expanded_from(s, e, i as int) =~= out@);
    out
}

/// Expands the placeholders of every line.
pub fn expand_env_vars(raw_config: &Vec<String>, env: &Vec<(String, String)>) -> (lines: Vec<
    String,
>)
    ensures
        lines@.len() == raw_config@.len(),
        forall|i: int|
            0 <= i < lines@.len() ==> (#[trigger] lines@[i])@ == spec_expand(
                raw_config@[i]@,
                bindings(env@),
            ),
{
    let mut lines: Vec<String> = Vec::new();
    let mut i: usize = 0;
    while i < raw_config.len()
        invariant
            0 <= i <= raw_config.len(),
            lines@.len() == i,
            forall|j: int|
                0 <= j < i ==> (#[trigger] lines@[j])@ == spec_expand(
                    raw_config@[j]@,
                    bindings(env@),
                ),
        decreases raw_config.len() - i,
    {
        lines.push(expand_line(raw_config[i].as_str(), env));
        i += 1;
    }
    lines
}

/// The lines that are no comments: a comment begins with `#`.
pub open spec fn no_comment() -> spec_fn(Seq<char>) -> bool {
    |line: Seq<char>| !has_prefix(line, "#"@)
}

/// Keeps the lines of a file that are no comments, in order.
pub fn read_file_lines(content: &Vec<String>) -> (lines: Vec<String>)
    ensures
        texts(lines@) == texts(content@).filter(no_comment()),
{
    let ghost all = texts(content@);
    let mut lines: Vec<String> = Vec::new();
    let mut i: usize = 0;
    proof {
        reveal(Seq::filter);
        assert(all.take(0).filter(no_comment()) =~= Seq::<Seq<char>>::empty());
        assert(texts(lines@) =~= Seq::<Seq<char>>::empty());
    }
    while i < content.len()
        invariant
            0 <= i <= content.len(),
            all == texts(content@),
            texts(lines@) == all.take(i as int).filter(no_comment()),
        decreases content.len() - i,
    {
        let ghost kept = texts(lines@);
        proof {
            assert(all.take(i + 1) =~= all.take(i as int).push(all[i as int]));
            all.take(i as int).lemma_filter_push(all[i as int], no_comment());
        }
        if !starts_with(content[i].as_str(), "#") {
            lines.push(content[i].clone());
            assert(texts(lines@) =~= kept.push(all[i as int]));
        }
        i += 1;
    }
    assert(all.take(i as int) =~= all);
    lines
}

/// The lines joined by line feeds.
pub open spec fn joined(lines: Seq<Seq<char>>) -> Seq<char>
    decreases lines.len(),
{
    if lines.len() == 0 {
        Seq::empty()
    } else if lines.len() == 1 {
        lines[0]
    } else {
        joined(lines.drop_last()) + seq!['\n'] + lines.last()
    }
}

/// Joins the lines by line feeds.
pub fn join_lines(lines: &Vec<String>) -> (document: String)
    ensures
        document@ == joined(texts(lines@)),
{
    let ghost all = texts(lines@);
    let mut document = String::new();
    let mut i: usize = 0;
    proof {
        reveal_strlit("\n");
        assert(all.take(0) =~= Seq::<Seq<char>>::empty());
    }
    while i < lines.len()
        invariant
            0 <= i <= lines.len(),
            all == texts(lines@),
            document@ == joined(all.take(i as int)),
            "\n"@ == seq!['\n'],
        decreases lines.len() - i,
    {
        proof {
            assert(all.take(i + 1).drop_last() =~= all.take(i as int));
            assert(all.take(i + 1).last() == all[i as int]);
            if i == 0 {
                assert(joined(all.take(0)) =~= Seq::<char>::empty());
            }
        }
        if i > 0 {
            document.append("\n");
        }
        document.append(lines[i].as_str());
        proof {
            if i == 0 {
                assert(document@ =~= all[0]);
            }
        }
        i += 1;
    }
    assert(all.take(i as int) =~= all);
    document
}

} // verus!
