use vstd::prelude::*;
use crate::matcher::{apply_rule, compiles_of, copies, first_span, is_literal, matches_of, splice, splices, Pattern};

verus! {

/// What `rules`, applied in order, make of `text`: each rule sees the output
/// of the one before it.
pub open spec fn apply_rules(rules: Seq<(Seq<char>, Seq<char>)>, replace_all: bool, text: Seq<char>) -> Seq<char>
    decreases rules.len(),
{
    if rules.len() == 0 {
        text
    } else {
        apply_rule(rules.last(), replace_all, apply_rules(rules.drop_last(), replace_all, text))
    }
}

/// The rules that `patterns` stand for, as (pattern text, template) pairs.
pub open spec fn rules_of(patterns: Seq<Pattern>) -> Seq<(Seq<char>, Seq<char>)> {
    patterns.map_values(|p: Pattern| p@)
}

/// Whether no rule of `rules` matches anywhere in `text`.
pub open spec fn none_match(rules: Seq<(Seq<char>, Seq<char>)>, text: Seq<char>) -> bool {
    forall|i: int| 0 <= i < rules.len() ==> (#[trigger] matches_of(rules[i].0, text)).len() == 0
}

/// Rule chaining: applying `a` and then `b` is applying `a` followed by `b`
/// as one list.
pub proof fn lemma_chain(a: Seq<(Seq<char>, Seq<char>)>, b: Seq<(Seq<char>, Seq<char>)>, replace_all: bool, text: Seq<char>)
    ensures
        apply_rules(a + b, replace_all, text) == apply_rules(b, replace_all, apply_rules(a, replace_all, text)),
    decreases b.len(),
{
    if b.len() == 0 {
        assert(a + b =~= a);
    } else {
        lemma_chain(a, b.drop_last(), replace_all, text);
        assert((a + b).drop_last() =~= a + b.drop_last());
        assert((a + b).last() == b.last());
    }
}

/// What the one rule `rule` makes of `text` when its template is taken
/// literally: the first match, or every match, replaced by the template.
pub open spec fn literal_result(rule: (Seq<char>, Seq<char>), replace_all: bool, text: Seq<char>) -> Seq<char> {
    let spans = if replace_all { matches_of(rule.0, text) } else { first_span(matches_of(rule.0, text)) };
    splice(text, spans, copies(rule.1, spans.len()), 0)
}

/// Applies `patterns` in order to `name`, each to its first match only, or,
/// with `replace_all`, to every match.
pub fn transform(name: &str, replace_all: bool, patterns: &[Pattern]) -> (r: String)
    ensures
        r@ == apply_rules(rules_of(patterns@), replace_all, name@),
        none_match(rules_of(patterns@), name@) ==> r@ == name@,
        patterns@.len() == 1 && !replace_all ==> splices(r@, name@, first_span(matches_of(patterns@[0]@.0, name@))),
        patterns@.len() == 1 && replace_all ==> splices(r@, name@, matches_of(patterns@[0]@.0, name@)),
        patterns@.len() == 1 && is_literal(patterns@[0]@.1) ==> r@ == literal_result(patterns@[0]@, replace_all, name@),
{
    let mut current = name.to_string();
    let mut i: usize = 0;
    while i < patterns.len()
        invariant
            0 <= i <= patterns@.len(),
            current@ == apply_rules(rules_of(patterns@.take(i as int)), replace_all, name@),
            none_match(rules_of(patterns@), name@) ==> current@ == name@,
            patterns@.len() == 1 && i == 1 && !replace_all ==> splices(current@, name@, first_span(matches_of(patterns@[0]@.0, name@))),
            patterns@.len() == 1 && i == 1 && replace_all ==> splices(current@, name@, matches_of(patterns@[0]@.0, name@)),
            patterns@.len() == 1 && i == 1 && is_literal(patterns@[0]@.1) ==> current@ == literal_result(patterns@[0]@, replace_all, name@),
        decreases patterns@.len() - i,
    {
        let next = patterns[i].apply(current.as_str(), replace_all);
        proof {
            let before = rules_of(patterns@.take(i as int));
            let after = rules_of(patterns@.take(i + 1));
            assert(after.drop_last() =~= before);
            assert(after.last() == patterns@[i as int]@);
            if none_match(rules_of(patterns@), name@) {
                assert(rules_of(patterns@)[i as int] == patterns@[i as int]@);
            }
            if i == 0 {
                assert(patterns@.take(0) =~= Seq::<Pattern>::empty());
            }
        }
        current = next;
        i = i + 1;
    }
    assert(patterns@.take(patterns@.len() as int) =~= patterns@);
    current
}

/// The ordered rules of one run, and whether each rule replaces every match
/// or only the first.
pub struct PatternSet {
    patterns: Vec<Pattern>,
    replace_all: bool,
}

impl PatternSet {
    pub closed spec fn rules(&self) -> Seq<(Seq<char>, Seq<char>)> {
        rules_of(self.patterns@)
    }

    pub closed spec fn all(&self) -> bool {
        self.replace_all
    }

    /// Compiles every rule of `rules`, in order. Fails with the text of the
    /// first pattern that does not compile.
    pub fn new(rules: &Vec<(String, String)>, replace_all: bool) -> (r: Result<PatternSet, String>)
        ensures
            r is Ok <==> forall|i: int| 0 <= i < rules@.len() ==> compiles_of(#[trigger] rules@[i].0@),
            r matches Ok(set) ==> set.all() == replace_all
                && set.rules() == rules@.map_values(|rule: (String, String)| (rule.0@, rule.1@)),
            r matches Err(e) ==> exists|i: int|
                0 <= i < rules@.len() && !compiles_of(#[trigger] rules@[i].0@) && e@ == rules@[i].0@
                && forall|j: int| 0 <= j < i ==> compiles_of(#[trigger] rules@[j].0@),
    {
        let mut patterns: Vec<Pattern> = Vec::new();
        let mut i: usize = 0;
        while i < rules.len()
            invariant
                0 <= i <= rules@.len(),
                patterns@.len() == i,
                forall|j: int| 0 <= j < i ==> compiles_of(#[trigger] rules@[j].0@),
                forall|j: int| 0 <= j < i ==> (#[trigger] patterns@[j])@ == (rules@[j].0@, rules@[j].1@),
            decreases rules@.len() - i,
        {
            match Pattern::new(rules[i].0.as_str(), rules[i].1.as_str()) {
                Ok(p) => patterns.push(p),
                Err(e) => {
                    return Err(e);
                },
            }
            i = i + 1;
        }
        let set = PatternSet { patterns, replace_all };
        assert(set.rules() =~= rules@.map_values(|rule: (String, String)| (rule.0@, rule.1@)));
        Ok(set)
    }

    /// Whether every match is replaced, or only the first.
    pub fn replace_all(&self) -> (r: bool)
        ensures
            r == self.all(),
    {
        self.replace_all
    }

    /// The compiled rules, in order.
    pub fn patterns(&self) -> (r: &[Pattern])
        ensures
            rules_of(r@) == self.rules(),
    {
        self.patterns.as_slice()
    }

    /// Applies the rules in order to `name`.
    pub fn transform(&self, name: &str) -> (r: String)
        ensures
            r@ == apply_rules(self.rules(), self.all(), name@),
            none_match(self.rules(), name@) ==> r@ == name@,
    {
        transform(name, self.replace_all, self.patterns.as_slice())
    }
}

} // verus!
