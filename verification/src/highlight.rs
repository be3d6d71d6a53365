//! The token classifier: partitions an input line into styled runs.
//!
//! An ordered table of rules is tried at each scan position, in declaration
//! order, against the unscanned suffix; the first rule whose literal pattern
//! starts the suffix claims that prefix as a run in the rule's style. Where
//! no rule matches — a single space included — the single next character
//! becomes an unstyled run. The runs cover the input exactly, in order.

use vstd::prelude::*;

use crate::color::Color;
use crate::text::copy_chars;

verus! {

/// One classification rule: a token identifier, the style its text is shown
/// in, and the literal pattern that claims text. Rules are declared once,
/// before any input is scanned, and tried in declaration order.
pub struct TokenRule {
    /// The identifier of the token kind, for the embedding program's use.
    pub name: Vec<char>,
    /// The style given to the text this rule claims.
    pub style: Color,
    /// The literal pattern, matched against the start of the unscanned
    /// suffix.
    pub pattern: Vec<char>,
}

/// A piece of the input that one scan step claimed, with its style. Runs are
/// produced afresh for each redraw and never persisted.
pub struct StyledRun {
    /// The claimed text, a contiguous piece of the input.
    pub text: Vec<char>,
    /// The style the text is shown in.
    pub style: Color,
}

/// `pat` is a non-empty prefix of `s`.
pub open spec fn matches_prefix(pat: Seq<char>, s: Seq<char>) -> bool {
    0 < pat.len() <= s.len() && s.take(pat.len() as int) == pat
}

/// The index of the first rule at or after `k`, in declaration order, whose
/// pattern is a non-empty prefix of `s`.
pub open spec fn first_match_from(rules: Seq<TokenRule>, s: Seq<char>, k: int) -> Option<int>
    decreases rules.len() - k,
{
    if k < 0 || k >= rules.len() {
        None
    } else if matches_prefix(rules[k].pattern@, s) {
        Some(k)
    } else {
        first_match_from(rules, s, k + 1)
    }
}

/// The run claimed at the head of a non-empty `s`: the first matching rule's
/// pattern in that rule's style, or the single head character unstyled when
/// no rule matches.
pub open spec fn head_run(rules: Seq<TokenRule>, s: Seq<char>) -> (Seq<char>, Color)
    recommends
        s.len() > 0,
{
    match first_match_from(rules, s, 0) {
        Some(k) => (rules[k].pattern@, rules[k].style),
        None => (seq![s[0]], Color::Plain),
    }
}

/// The styled partition of `s`: the runs claimed left to right, each by the
/// first rule matching at its position.
pub open spec fn spec_highlight(rules: Seq<TokenRule>, s: Seq<char>) -> Seq<(Seq<char>, Color)>
    decreases s.len(),
    via spec_highlight_decreases
{
    if s.len() == 0 {
        Seq::empty()
    } else {
        seq![head_run(rules, s)] + spec_highlight(
            rules,
            s.skip(head_run(rules, s).0.len() as int),
        )
    }
}

#[via_fn]
proof fn spec_highlight_decreases(rules: Seq<TokenRule>, s: Seq<char>) {
    if s.len() > 0 {
        lemma_head_run_shape(rules, s);
    }
}

/// A match found at or after `k` names a rule in range whose pattern is a
/// non-empty prefix of `s`; no match means no rule at or after `k` matches.
pub proof fn lemma_first_match_from_sound(rules: Seq<TokenRule>, s: Seq<char>, k: int)
    requires
        0 <= k,
    ensures
        first_match_from(rules, s, k) matches Some(j) ==> k <= j < rules.len() && matches_prefix(
            rules[j].pattern@,
            s,
        ),
    decreases rules.len() - k,
{
    if k < rules.len() && !matches_prefix(rules[k].pattern@, s) {
        lemma_first_match_from_sound(rules, s, k + 1);
    }
}

/// The head run of a non-empty `s` is non-empty, no longer than `s`, and is
/// exactly the prefix of `s` of its own length.
pub proof fn lemma_head_run_shape(rules: Seq<TokenRule>, s: Seq<char>)
    requires
        s.len() > 0,
    ensures
        0 < head_run(rules, s).0.len() <= s.len(),
        head_run(rules, s).0 == s.take(head_run(rules, s).0.len() as int),
{
    lemma_first_match_from_sound(rules, s, 0);
    if first_match_from(rules, s, 0) is None {
        assert(seq![s[0]] =~= s.take(1));
    }
}

/// The text and style pairs carried by a sequence of runs.
pub open spec fn runs_model(runs: Seq<StyledRun>) -> Seq<(Seq<char>, Color)> {
    runs.map_values(|run: StyledRun| (run.text@, run.style))
}

/// The concatenated texts of a sequence of runs.
pub open spec fn runs_text(runs: Seq<(Seq<char>, Color)>) -> Seq<char>
    decreases runs.len(),
{
    if runs.len() == 0 {
        Seq::empty()
    } else {
        runs[0].0 + runs_text(runs.drop_first())
    }
}

/// Lossless partition: for every rule set, the concatenated texts of the
/// runs that highlighting assigns to `s` reconstruct `s` exactly.
pub proof fn lemma_highlight_lossless(rules: Seq<TokenRule>, s: Seq<char>)
    ensures
        runs_text(spec_highlight(rules, s)) == s,
    decreases s.len(),
{
    if s.len() == 0 {
        assert(runs_text(spec_highlight(rules, s)) =~= s);
    } else {
        lemma_head_run_shape(rules, s);
        let run = head_run(rules, s);
        let len = run.0.len() as int;
        let rest = s.skip(len);
        lemma_highlight_lossless(rules, rest);
        assert((seq![run] + spec_highlight(rules, rest)).drop_first() =~= spec_highlight(
            rules,
            rest,
        ));
        assert(run.0 + rest =~= s);
    }
}

/// Does the pattern `pat` claim a prefix of the suffix of `input` that
/// begins at `at`? An empty pattern claims nothing.
fn pattern_matches_at(pat: &Vec<char>, input: &Vec<char>, at: usize) -> (matched: bool)
    requires
        at <= input@.len(),
    ensures
        matched == matches_prefix(pat@, input@.skip(at as int)),
{
    let n = input.len();
    if pat.len() == 0 || pat.len() > n - at {
        return false;
    }
    let mut j: usize = 0;
    while j < pat.len()
        invariant
            n == input@.len(),
            at <= n,
            0 < pat@.len() <= n - at,
            j <= pat@.len(),
            forall|t: int| 0 <= t < j ==> pat@[t] == input@[at + t],
        decreases pat@.len() - j,
    {
        if input[at + j] != pat[j] {
            proof {
                if matches_prefix(pat@, input@.skip(at as int)) {
                    assert(input@.skip(at as int).take(pat@.len() as int)[j as int] == pat@[
                        j as int
                    ]);
                }
            }
            return false;
        }
        j = j + 1;
    }
    proof {
        assert(input@.skip(at as int).take(pat@.len() as int) =~= pat@);
    }
    true
}

/// The first rule, in declaration order, whose pattern claims a prefix of
/// the suffix of `input` beginning at `at`.
fn first_matching_rule(rules: &Vec<TokenRule>, input: &Vec<char>, at: usize) -> (found: Option<
    usize,
>)
    requires
        at <= input@.len(),
    ensures
        found matches Some(k) ==> first_match_from(rules@, input@.skip(at as int), 0) == Some(
            k as int,
        ),
        found is None ==> first_match_from(rules@, input@.skip(at as int), 0) is None,
{
    let ghost suffix = input@.skip(at as int);
    let mut k: usize = 0;
    while k < rules.len()
        invariant
            at <= input@.len(),
            suffix == input@.skip(at as int),
            k <= rules@.len(),
            first_match_from(rules@, suffix, 0) == first_match_from(rules@, suffix, k as int),
        decreases rules@.len() - k,
    {
        if pattern_matches_at(&rules[k].pattern, input, at) {
            return Some(k);
        }
        proof {
            assert(first_match_from(rules@, suffix, k as int) == first_match_from(
                rules@,
                suffix,
                k as int + 1,
            ));
        }
        k = k + 1;
    }
    None
}

/// Partitions `input` into styled runs. At each position the first rule in
/// declaration order whose literal pattern starts the unscanned suffix
/// claims that prefix in its style; where no rule matches, the single next
/// character becomes an unstyled run. Output order matches input order, runs
/// do not overlap, and their concatenation reconstructs `input` exactly. An
/// empty rule set degrades to one unstyled run per character.
pub fn highlight(rules: &Vec<TokenRule>, input: &Vec<char>) -> (runs: Vec<StyledRun>)
    ensures
        runs_model(runs@) == spec_highlight(rules@, input@),
{
    let mut runs: Vec<StyledRun> = Vec::new();
    let mut i: usize = 0;
    proof {
        assert(input@.skip(0) =~= input@);
        assert(runs_model(runs@) =~= Seq::<(Seq<char>, Color)>::empty());
    }
    while i < input.len()
        invariant
            i <= input@.len(),
            spec_highlight(rules@, input@) == runs_model(runs@) + spec_highlight(
                rules@,
                input@.skip(i as int),
            ),
        decreases input@.len() - i,
    {
        let ghost suffix = input@.skip(i as int);
        let found = first_matching_rule(rules, input, i);
        proof {
            lemma_first_match_from_sound(rules@, suffix, 0);
        }
        let run = match found {
            Some(k) => StyledRun { text: copy_chars(&rules[k].pattern), style: rules[k].style },
            None => {
                let mut text: Vec<char> = Vec::new();
                text.push(input[i]);
                StyledRun { text, style: Color::Plain }
            },
        };
        proof {
            lemma_head_run_shape(rules@, suffix);
            if found is None {
                assert(run.text@ =~= seq![suffix[0]]);
            }
            assert(run.text@ == head_run(rules@, suffix).0);
            assert(run.style == head_run(rules@, suffix).1);
            assert(suffix.skip(run.text@.len() as int) =~= input@.skip(
                i + run.text@.len(),
            ));
        }
        let ghost previous = runs@;
        let ghost claimed = (run.text@, run.style);
        let step = run.text.len();
        runs.push(run);
        proof {
            assert(runs_model(runs@) =~= runs_model(previous) + seq![claimed]);
            assert((runs_model(previous) + seq![claimed]) + spec_highlight(
                rules@,
                input@.skip(i + step),
            ) =~= runs_model(previous) + (seq![claimed] + spec_highlight(
                rules@,
                input@.skip(i + step),
            )));
        }
        i = i + step;
    }
    proof {
        assert(input@.skip(input@.len() as int).len() == 0);
        assert(runs_model(runs@) + spec_highlight(rules@, input@.skip(i as int)) =~= runs_model(
            runs@,
        ));
    }
    runs
}

} // verus!
