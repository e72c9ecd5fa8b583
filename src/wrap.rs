//! The generated project's source: the snippet itself where it already has an
//! entry point, else its crate declarations hoisted above a synthesized
//! `fn main` that holds the rest.
use vstd::prelude::*;
use crate::manifest::group_text;
use crate::pattern::{
    SnippetError, captures_all, captures_view, groups_view, is_match, pattern_error,
    regex_captures, regex_matches, regex_removed, regex_valid, remove_all,
};
use crate::text::{strip_markers, strip_markers_spec};

verus! {

/// A line that opens an entry point: `fn main()`, indented or not.
pub const ENTRY_POINT: &'static str = r"(?m)^\s*fn +main *\( *\)";

/// A crate declaration (`crate` keyword pair, a lowercase name, `;`); group 1
/// is the whole declaration.
pub const DECLARATION: &'static str = r"([e]xtern\s+crate\s+[a-z0-9_]+\s*;)";

/// What the evaluator was asked to do.
pub struct Args {
    /// The snippet; `None` when it is to be read from standard input.
    pub snippet: Option<String>,
    /// Print the debug form of the snippet's value.
    pub print_result: bool,
    /// Keep the build tool quiet.
    pub quiet: bool,
    /// Build with optimizations.
    pub release: bool,
}

/// The hoisted declarations: group 1 of each match, each on a line of its own.
pub open spec fn hoisted_block(caps: Seq<Seq<Option<Seq<char>>>>) -> Seq<char>
    decreases caps.len(),
{
    if caps.len() == 0 {
        Seq::empty()
    } else {
        hoisted_block(caps.drop_last()) + group_text(caps.last(), 1) + seq!['\n']
    }
}

/// The body inside a statement that prints the debug form of its value.
pub open spec fn print_wrapped(body: Seq<char>) -> Seq<char> {
    "println!(\"{:?}\", { "@ + body + " });"@
}

/// The declarations, then a `fn main` around the body.
pub open spec fn program(decls: Seq<char>, body: Seq<char>) -> Seq<char> {
    "\n"@ + decls + "\nfn main() {\n"@ + body + "\n}"@
}

/// The program made of a snippet without entry point, given the matches of
/// its declarations and the snippet with them removed.
pub open spec fn wrapped_spec(
    caps: Seq<Seq<Option<Seq<char>>>>,
    body: Seq<char>,
    print_result: bool,
) -> Seq<char> {
    program(hoisted_block(caps), if print_result { print_wrapped(body) } else { body })
}

/// The source of the generated project for the snippet.
pub open spec fn source_spec(input: Seq<char>, print_result: bool) -> Seq<char> {
    let s = strip_markers_spec(input);
    if regex_matches(ENTRY_POINT@, s) {
        s
    } else {
        wrapped_spec(
            regex_captures(DECLARATION@, s),
            regex_removed(DECLARATION@, s),
            print_result,
        )
    }
}

/// A snippet with an entry point is kept as it is once its markers are
/// stripped: nothing is hoisted, and printing the result changes nothing.
pub proof fn lemma_entry_point_kept(input: Seq<char>, print_result: bool)
    requires
        regex_matches(ENTRY_POINT@, strip_markers_spec(input)),
    ensures
        source_spec(input, print_result) == strip_markers_spec(input),
        source_spec(input, true) == source_spec(input, false),
{
}

/// A snippet without entry point becomes its declarations, one per line, in
/// the order found, followed by one synthesized `fn main` whose body holds
/// the rest of the snippet intact, printed where asked.
pub proof fn lemma_wrapped_shape(input: Seq<char>, print_result: bool)
    requires
        !regex_matches(ENTRY_POINT@, strip_markers_spec(input)),
    ensures
        ({
            let s = strip_markers_spec(input);
            let rest = regex_removed(DECLARATION@, s);
            let body = if print_result { "println!(\"{:?}\", { "@ + rest + " });"@ } else { rest };
            source_spec(input, print_result) == "\n"@ + hoisted_block(regex_captures(DECLARATION@, s))
                + "\nfn main() {\n"@ + body + "\n}"@
        }),
{
}

/// The hoisted lines of two runs of matches are those of the first, then
/// those of the second.
pub proof fn lemma_hoisted_append(a: Seq<Seq<Option<Seq<char>>>>, b: Seq<Seq<Option<Seq<char>>>>)
    ensures
        hoisted_block(a + b) == hoisted_block(a) + hoisted_block(b),
    decreases b.len(),
{
    if b.len() == 0 {
        assert(a + b =~= a);
        assert(hoisted_block(a) + hoisted_block(b) =~= hoisted_block(a));
    } else {
        lemma_hoisted_append(a, b.drop_last());
        assert((a + b).drop_last() =~= a + b.drop_last());
        assert((a + b).last() == b.last());
        let g = group_text(b.last(), 1);
        assert(hoisted_block(a) + hoisted_block(b.drop_last()) + g + seq!['\n'] =~= hoisted_block(a) + (hoisted_block(b.drop_last()) + g + seq!['\n']));
    }
}

/// The hoisted declarations of the given matches, one line each, in order.
pub fn hoisted_lines(caps: &Vec<Vec<Option<String>>>) -> (r: String)
    ensures
        r@ == hoisted_block(captures_view(*caps)),
{
    let ghost all = captures_view(*caps);
    let mut out = "".to_owned();
    proof {
        reveal_strlit("");
    }
    let mut i: usize = 0;
    while i < caps.len()
        invariant
            i <= caps.len(),
            all == captures_view(*caps),
            out@ == hoisted_block(all.take(i as int)),
        decreases caps.len() - i,
    {
        let cap = &caps[i];
        let ghost g = groups_view(*cap);
        if cap.len() > 1 {
            match &cap[1] {
                Some(d) => out.append(d.as_str()),
                None => {},
            }
        }
        out.append("\n");
        proof {
            reveal_strlit("\n");
            assert(all.take(i + 1).drop_last() =~= all.take(i as int));
            assert(out@ =~= hoisted_block(all.take(i as int)) + group_text(g, 1) + seq!['\n']);
        }
        i = i + 1;
    }
    assert(all.take(i as int) =~= all);
    out
}

/// The program made of a snippet without entry point: its declarations, given
/// as matches, hoisted above a `fn main` that holds `body`, the snippet with
/// them removed; with `print_result`, the body's value is printed.
pub fn wrap_body(caps: &Vec<Vec<Option<String>>>, body: &str, print_result: bool) -> (r: String)
    ensures
        r@ == wrapped_spec(captures_view(*caps), body@, print_result),
{
    let decls = hoisted_lines(caps);
    let mut out = "\n".to_owned();
    out.append(decls.as_str());
    out.append("\nfn main() {\n");
    if print_result {
        out.append("println!(\"{:?}\", { ");
        out.append(body);
        out.append(" });");
    } else {
        out.append(body);
    }
    out.append("\n}");
    out
}

/// The source of the generated project: the snippet, markers stripped, where
/// it has an entry point; else its declarations hoisted above a `fn main`
/// that holds the rest.
pub fn make_source_code(input: &str, args: &Args) -> (r: Result<String, SnippetError>)
    ensures
        r is Ok <==> regex_valid(ENTRY_POINT@) && (regex_matches(
            ENTRY_POINT@,
            strip_markers_spec(input@),
        ) || regex_valid(DECLARATION@)),
        r is Ok ==> r->Ok_0@ == source_spec(input@, args.print_result),
        r is Err ==> r->Err_0 == SnippetError::InvalidPattern,
{
    let stripped = strip_markers(input);
    let has_entry = match is_match(ENTRY_POINT, stripped.as_str()) {
        Ok(b) => b,
        Err(e) => return Err(pattern_error(e)),
    };
    if has_entry {
        return Ok(stripped);
    }
    let caps = match captures_all(DECLARATION, stripped.as_str()) {
        Ok(c) => c,
        Err(e) => return Err(pattern_error(e)),
    };
    let body = match remove_all(DECLARATION, stripped.as_str()) {
        Ok(b) => b,
        Err(e) => return Err(pattern_error(e)),
    };
    Ok(wrap_body(&caps, body.as_str(), args.print_result))
}

} // verus!
