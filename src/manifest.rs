//! The generated project's manifest: its package table and one dependency
//! line per crate declaration found in the snippet.
use vstd::prelude::*;
use crate::pattern::{
    SnippetError, captures_all, captures_view, groups_view, pattern_error, regex_captures,
    regex_valid,
};
use crate::text::{chars_of, contains_char, string_of, trim, trim_bounds};

verus! {

/// A crate declaration (`crate` keyword pair, a lowercase name, `;`),
/// optionally followed by a `//` comment holding a specifier. Group 1 is the
/// name, group 3 the comment's text.
pub const DECLARATION_WITH_SPECIFIER: &'static str = r"[e]xtern\s+crate\s+([a-z0-9_]+)\s*;(\s*//(.+))?";

/// The manifest's text before the dependency lines.
pub const MANIFEST_HEAD: &'static str = "\n[package]\nname = \"evalrs_temp\"\nversion = \"0.0.0\"\n\n[dependencies]\n";

/// Group `i` of a match, `None` where the group is absent.
pub open spec fn group(cap: Seq<Option<Seq<char>>>, i: int) -> Option<Seq<char>> {
    if 0 <= i < cap.len() {
        cap[i]
    } else {
        None
    }
}

/// The text of group `i` of a match, empty where the group is absent.
pub open spec fn group_text(cap: Seq<Option<Seq<char>>>, i: int) -> Seq<char> {
    match group(cap, i) {
        Some(t) => t,
        None => Seq::empty(),
    }
}

/// The manifest line of one declaration: the comment verbatim where it holds
/// `=`, else `name = "<comment, trimmed>"`, and `name = "*"` without comment.
pub open spec fn dependency_line(cap: Seq<Option<Seq<char>>>) -> Seq<char> {
    let name = group_text(cap, 1);
    match group(cap, 3) {
        Some(v) => if v.contains('=') {
            v + seq!['\n']
        } else {
            name + " = \""@ + trim(v) + "\"\n"@
        },
        None => name + " = \"*\"\n"@,
    }
}

/// The manifest lines of the declarations, in the order found.
pub open spec fn dependency_block(caps: Seq<Seq<Option<Seq<char>>>>) -> Seq<char>
    decreases caps.len(),
{
    if caps.len() == 0 {
        Seq::empty()
    } else {
        dependency_block(caps.drop_last()) + dependency_line(caps.last())
    }
}

/// The whole manifest around the given dependency lines.
pub open spec fn manifest_spec(deps: Seq<char>) -> Seq<char> {
    MANIFEST_HEAD@ + deps + "\n"@
}

/// The dependency lines of two runs of matches are those of the first, then
/// those of the second: one line per match, in the order found.
pub proof fn lemma_dependency_block_append(
    a: Seq<Seq<Option<Seq<char>>>>,
    b: Seq<Seq<Option<Seq<char>>>>,
)
    ensures
        dependency_block(a + b) == dependency_block(a) + dependency_block(b),
    decreases b.len(),
{
    if b.len() == 0 {
        assert(a + b =~= a);
        assert(dependency_block(a) + dependency_block(b) =~= dependency_block(a));
    } else {
        lemma_dependency_block_append(a, b.drop_last());
        assert((a + b).drop_last() =~= a + b.drop_last());
        assert((a + b).last() == b.last());
        let l = dependency_line(b.last());
        assert(dependency_block(a) + dependency_block(b.drop_last()) + l =~= dependency_block(a) + (dependency_block(b.drop_last()) + l));
    }
}

/// Every match gives one line: its dependency line ends with the one newline
/// that ends it, and the lines of the matches follow their order.
pub proof fn lemma_one_line_per_match(caps: Seq<Seq<Option<Seq<char>>>>, cap: Seq<Option<Seq<char>>>)
    ensures
        dependency_line(cap).len() > 0,
        dependency_line(cap).last() == '\n',
        dependency_block(caps.push(cap)) == dependency_block(caps) + dependency_line(cap),
{
    reveal_strlit("\"\n");
    reveal_strlit(" = \"*\"\n");
    assert(caps.push(cap).drop_last() =~= caps);
}

/// The manifest line of one declaration match.
pub fn dependency_line_of(cap: &Vec<Option<String>>) -> (r: String)
    ensures
        r@ == dependency_line(groups_view(*cap)),
{
    let ghost g = groups_view(*cap);
    let mut line: String = if cap.len() > 1 {
        match &cap[1] {
            Some(n) => n.as_str().to_owned(),
            None => "".to_owned(),
        }
    } else {
        "".to_owned()
    };
    assert(line@ == group_text(g, 1)) by {
        reveal_strlit("");
    }
    if cap.len() > 3 {
        match &cap[3] {
            Some(v) => {
                let chars = chars_of(v.as_str());
                if contains_char(chars.as_slice(), '=') {
                    let mut out = v.as_str().to_owned();
                    out.append("\n");
                    proof {
                        reveal_strlit("\n");
                        assert(out@ =~= v@ + seq!['\n']);
                    }
                    return out;
                }
                let (lo, hi) = trim_bounds(chars.as_slice());
                let spec_text = string_of(vstd::slice::slice_subrange(chars.as_slice(), lo, hi));
                line.append(" = \"");
                line.append(spec_text.as_str());
                line.append("\"\n");
                return line;
            },
            None => {},
        }
    }
    line.append(" = \"*\"\n");
    line
}

/// The manifest lines of the given declaration matches, one per match, in order.
pub fn dependency_lines(caps: &Vec<Vec<Option<String>>>) -> (r: String)
    ensures
        r@ == dependency_block(captures_view(*caps)),
{
    let ghost all = captures_view(*caps);
    let mut out = "".to_owned();
    proof {
        reveal_strlit("");
    }
    let mut i: usize = 0;
    while i < caps.len()
        invariant
            i <= caps.len(),
            all == captures_view(*caps),
            out@ == dependency_block(all.take(i as int)),
        decreases caps.len() - i,
    {
        let line = dependency_line_of(&caps[i]);
        out.append(line.as_str());
        assert(all.take(i + 1).drop_last() =~= all.take(i as int));
        i = i + 1;
    }
    assert(all.take(i as int) =~= all);
    out
}

/// The manifest around the given dependency lines.
pub fn manifest_with(deps: &str) -> (r: String)
    ensures
        r@ == manifest_spec(deps@),
{
    let mut out = MANIFEST_HEAD.to_owned();
    out.append(deps);
    out.append("\n");
    out
}

/// The manifest of the generated project for the snippet: one dependency line
/// per crate declaration in it.
pub fn make_manifest(input: &str) -> (r: Result<String, SnippetError>)
    ensures
        r is Ok <==> regex_valid(DECLARATION_WITH_SPECIFIER@),
        r is Ok ==> r->Ok_0@ == manifest_spec(
            dependency_block(regex_captures(DECLARATION_WITH_SPECIFIER@, input@)),
        ),
        r is Err ==> r->Err_0 == SnippetError::InvalidPattern,
{
    match captures_all(DECLARATION_WITH_SPECIFIER, input) {
        Ok(caps) => {
            let deps = dependency_lines(&caps);
            Ok(manifest_with(deps.as_str()))
        },
        Err(e) => Err(pattern_error(e)),
    }
}

} // verus!
