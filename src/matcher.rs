use vstd::prelude::*;

verus! {

/// A compiled regular expression of the `regex` crate.
#[verifier::external_type_specification]
#[verifier::external_body]
pub struct ExRegex(regex::Regex);

/// The error that `regex` reports for a pattern it cannot compile.
#[verifier::external_type_specification]
#[verifier::external_body]
pub struct ExRegexError(regex::Error);

/// Whether `regex` accepts `find` as a regular expression.
pub uninterp spec fn compiles_of(find: Seq<char>) -> bool;

/// The spans, as character positions `(start, end)`, of the successive
/// leftmost-first, non-overlapping matches of `find` in `text`.
pub uninterp spec fn matches_of(find: Seq<char>, text: Seq<char>) -> Seq<(int, int)>;

/// `text` after replacing the first match of `find` by the template `rep`.
pub uninterp spec fn replace_first_of(find: Seq<char>, text: Seq<char>, rep: Seq<char>) -> Seq<char>;

/// `text` after replacing every match of `find` by the template `rep`.
pub uninterp spec fn replace_all_of(find: Seq<char>, text: Seq<char>, rep: Seq<char>) -> Seq<char>;

/// Relies on `regex::Regex::new`: it succeeds exactly on the patterns that
/// the crate accepts, which depends on the pattern text alone.
pub assume_specification[ regex::Regex::new ](re: &str) -> (r: Result<regex::Regex, regex::Error>)
    ensures
        r is Ok <==> compiles_of(re@),
;

/// The first span of `spans`, if there is one.
pub open spec fn first_span(spans: Seq<(int, int)>) -> Seq<(int, int)> {
    if spans.len() == 0 {
        spans
    } else {
        seq![spans[0]]
    }
}

/// `text` from position `from` on, where each span of `spans` is replaced by
/// the piece of `reps` at the same index and everything between spans is kept.
pub open spec fn splice(text: Seq<char>, spans: Seq<(int, int)>, reps: Seq<Seq<char>>, from: int) -> Seq<char>
    decreases spans.len(),
{
    if spans.len() == 0 {
        text.subrange(from, text.len() as int)
    } else {
        text.subrange(from, spans[0].0) + reps[0] + splice(text, spans.drop_first(), reps.drop_first(), spans[0].1)
    }
}

/// Whether `out` is `text` with each span of `spans` replaced by some piece
/// and everything else kept.
pub open spec fn splices(out: Seq<char>, text: Seq<char>, spans: Seq<(int, int)>) -> bool {
    exists|reps: Seq<Seq<char>>| reps.len() == spans.len() && out == splice(text, spans, reps, 0)
}

/// `n` copies of `rep`.
pub open spec fn copies(rep: Seq<char>, n: nat) -> Seq<Seq<char>> {
    Seq::new(n, |i: int| rep)
}

/// Whether `rep` is taken literally by `regex`: only `$` starts a reference
/// to a capture group.
pub open spec fn is_literal(rep: Seq<char>) -> bool {
    !rep.contains('$')
}

/// A rule: the matcher compiled from `find`, and the replacement template.
///
/// The fields are private and `Pattern::new` is the only place that builds
/// one, so `matcher` is always the compilation of `find`.
pub struct Pattern {
    matcher: regex::Regex,
    find: String,
    replacement: String,
}

impl View for Pattern {
    type V = (Seq<char>, Seq<char>);

    closed spec fn view(&self) -> (Seq<char>, Seq<char>) {
        (self.find@, self.replacement@)
    }
}

/// Relies on `regex::Regex::replace`: the haystack comes back unchanged but
/// for the first span that `find_iter` reports, which is replaced by the
/// expansion of the template, or by the template itself when it holds no `$`.
#[verifier::external_body]
fn replace_first(p: &Pattern, text: &str) -> (r: String)
    ensures
        r@ == replace_first_of(p@.0, text@, p@.1),
        splices(r@, text@, first_span(matches_of(p@.0, text@))),
        is_literal(p@.1) ==> r@ == splice(
            text@,
            first_span(matches_of(p@.0, text@)),
            copies(p@.1, first_span(matches_of(p@.0, text@)).len()),
            0,
        ),
{
    p.matcher.replace(text, p.replacement.as_str()).into_owned()
}

/// Relies on `regex::Regex::replace_all`: the haystack comes back unchanged
/// but for the spans that `find_iter` reports, each replaced by the expansion
/// of the template, or by the template itself when it holds no `$`.
#[verifier::external_body]
fn replace_every(p: &Pattern, text: &str) -> (r: String)
    ensures
        r@ == replace_all_of(p@.0, text@, p@.1),
        splices(r@, text@, matches_of(p@.0, text@)),
        is_literal(p@.1) ==> r@ == splice(
            text@,
            matches_of(p@.0, text@),
            copies(p@.1, matches_of(p@.0, text@).len()),
            0,
        ),
{
    p.matcher.replace_all(text, p.replacement.as_str()).into_owned()
}

/// What one rule makes of `text`.
pub open spec fn apply_rule(rule: (Seq<char>, Seq<char>), replace_all: bool, text: Seq<char>) -> Seq<char> {
    if replace_all {
        replace_all_of(rule.0, text, rule.1)
    } else {
        replace_first_of(rule.0, text, rule.1)
    }
}

impl Pattern {
    /// Compiles `find`; on failure hands back the pattern text.
    pub fn new(find: &str, replacement: &str) -> (r: Result<Pattern, String>)
        ensures
            r is Ok <==> compiles_of(find@),
            r matches Ok(p) ==> p@ == (find@, replacement@),
            r matches Err(e) ==> e@ == find@,
    {
        match regex::Regex::new(find) {
            Ok(matcher) => Ok(Pattern { matcher, find: find.to_string(), replacement: replacement.to_string() }),
            Err(_) => Err(find.to_string()),
        }
    }

    /// The pattern text this rule was compiled from.
    pub fn find(&self) -> (r: &str)
        ensures
            r@ == self@.0,
    {
        self.find.as_str()
    }

    /// The replacement template.
    pub fn replacement(&self) -> (r: &str)
        ensures
            r@ == self@.1,
    {
        self.replacement.as_str()
    }

    /// Replaces the first match (or, with `replace_all`, every match) of this
    /// rule in `text`.
    pub fn apply(&self, text: &str, replace_all: bool) -> (r: String)
        ensures
            r@ == apply_rule(self@, replace_all, text@),
            !replace_all ==> splices(r@, text@, first_span(matches_of(self@.0, text@))),
            replace_all ==> splices(r@, text@, matches_of(self@.0, text@)),
            !replace_all && is_literal(self@.1) ==> r@ == splice(
                text@,
                first_span(matches_of(self@.0, text@)),
                copies(self@.1, first_span(matches_of(self@.0, text@)).len()),
                0,
            ),
            replace_all && is_literal(self@.1) ==> r@ == splice(
                text@,
                matches_of(self@.0, text@),
                copies(self@.1, matches_of(self@.0, text@).len()),
                0,
            ),
            matches_of(self@.0, text@).len() == 0 ==> r@ == text@,
    {
        let r = if replace_all {
            replace_every(self, text)
        } else {
            replace_first(self, text)
        };
        proof {
            if matches_of(self@.0, text@).len() == 0 {
                assert(text@.subrange(0, text@.len() as int) =~= text@);
            }
        }
        r
    }
}

} // verus!
