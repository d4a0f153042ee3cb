//! Shrinking style sheets and scripts.
use vstd::prelude::*;
use crate::text::{
    chars_of, has_prefix, join, lines_vec, replace_all, replace_str, starts_with, string_of,
    text_lines, trim, trim_vec, views,
};

verus! {

/// The trimmed lines kept: non-empty ones that do not start a comment
/// (`/*`, and for scripts also `//`).
pub open spec fn kept_lines(ls: Seq<Seq<char>>, js: bool) -> Seq<Seq<char>>
    decreases ls.len(),
{
    if ls.len() == 0 {
        Seq::empty()
    } else {
        let r = kept_lines(ls.drop_last(), js);
        let t = trim(ls.last());
        if t.len() > 0 && !has_prefix(t, "/*"@) && !(js && has_prefix(t, "//"@)) {
            r.push(t)
        } else {
            r
        }
    }
}

/// The kept lines joined by spaces.
pub open spec fn joined_lines(s: Seq<char>, js: bool) -> Seq<char> {
    join(kept_lines(text_lines(s), js), " "@)
}

/// CSS shrunk: kept lines joined by spaces, then double spaces and the
/// spaces around `;`, `{` and `}` removed, in that order.
pub open spec fn optimized_css(s: Seq<char>) -> Seq<char> {
    let j = joined_lines(s, false);
    replace_all(
        replace_all(
            replace_all(
                replace_all(replace_all(replace_all(j, "  "@, " "@), "; "@, ";"@), " {"@, "{"@),
                "{ "@,
                "{"@,
            ),
            " }"@,
            "}"@,
        ),
        "} "@,
        "}"@,
    )
}

/// JavaScript shrunk: kept lines joined by spaces, double spaces made
/// single.
pub open spec fn optimized_js(s: Seq<char>) -> Seq<char> {
    replace_all(joined_lines(s, true), "  "@, " "@)
}

fn join_kept_lines(text: &str, js: bool) -> (res: Vec<char>)
    ensures
        res@ == joined_lines(text@, js),
{
    let v = chars_of(text);
    let ls = lines_vec(&v);
    let ghost lv = views(ls@);
    let mut kept: Vec<Vec<char>> = Vec::new();
    let mut i: usize = 0;
    while i < ls.len()
        invariant
            i <= ls@.len(),
            lv == views(ls@),
            lv == text_lines(text@),
            views(kept@) == kept_lines(lv.take(i as int), js),
        decreases ls.len() - i,
    {
        assert(lv.take(i + 1).drop_last() =~= lv.take(i as int));
        assert(lv.take(i + 1).last() == ls@[i as int]@);
        let t = trim_vec(&ls[i]);
        if t.len() > 0 && !starts_with(&t, "/*") && !(js && starts_with(&t, "//")) {
            let ghost before = views(kept@);
            let ghost tv = t@;
            kept.push(t);
            assert(views(kept@) =~= before.push(tv));
        }
        i += 1;
    }
    assert(lv.take(ls@.len() as int) =~= lv);
    let space = chars_of(" ");
    let s = crate::text::join_all(&kept, &space);
    chars_of(s.as_str())
}

/// Optimize CSS by removing comments and extra whitespace.
pub fn optimize_css(css: &str) -> (res: String)
    ensures
        res@ == optimized_css(css@),
{
    proof {
        reveal_strlit("  ");
        reveal_strlit("; ");
        reveal_strlit(" {");
        reveal_strlit("{ ");
        reveal_strlit(" }");
        reveal_strlit("} ");
    }
    let j = join_kept_lines(css, false);
    let a = replace_str(&j, "  ", " ");
    let b = replace_str(&a, "; ", ";");
    let c = replace_str(&b, " {", "{");
    let d = replace_str(&c, "{ ", "{");
    let e = replace_str(&d, " }", "}");
    let f = replace_str(&e, "} ", "}");
    string_of(&f)
}

/// Optimize JavaScript by removing comments and extra whitespace.
pub fn optimize_js(js: &str) -> (res: String)
    ensures
        res@ == optimized_js(js@),
{
    proof {
        reveal_strlit("  ");
    }
    let j = join_kept_lines(js, true);
    let a = replace_str(&j, "  ", " ");
    string_of(&a)
}

} // verus!
