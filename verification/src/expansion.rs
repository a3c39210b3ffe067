//! The expansion engine: parallel string rewriting over an L-system
//! definition, with its functional model and the laws that hold of it.

use vstd::prelude::*;
use crate::errors::RenderError;
use crate::lsystem::{rules_view, CanvasScaling, LSystem, Rule};

verus! {

/// The mathematical content of an `LSystem`: everything the rewriting and
/// drawing semantics depend on, over sequences and integers.
pub ghost struct LSystemView {
    pub variables: Seq<char>,
    pub seed: Seq<char>,
    pub rules: Seq<(char, Seq<char>)>,
    pub angle_tenth_degrees: int,
    pub max_rounds: int,
    pub canvas: CanvasScaling,
}

/// The replacement of the first rule for `c`, if any rule fires on `c`.
pub open spec fn find_rule(rules: Seq<(char, Seq<char>)>, c: char) -> Option<Seq<char>>
    decreases rules.len(),
{
    if rules.len() == 0 {
        None
    } else if rules[0].0 == c {
        Some(rules[0].1)
    } else {
        find_rule(rules.drop_first(), c)
    }
}

/// What one round of rewriting turns the single symbol `c` into: a symbol
/// in `variables` is replaced by its rule's replacement, every other
/// symbol is copied unchanged.  A variable without a rule is a
/// definition-consistency fault; it is also copied unchanged, so that
/// rewriting is total.
pub open spec fn apply_to(sys: LSystemView, c: char) -> Seq<char> {
    if sys.variables.contains(c) {
        match find_rule(sys.rules, c) {
            Some(replacement) => replacement,
            None => seq![c],
        }
    } else {
        seq![c]
    }
}

/// One round of parallel rewriting: every symbol of `s` is substituted at
/// once and the replacements are concatenated in original order.
pub open spec fn rewrite(sys: LSystemView, s: Seq<char>) -> Seq<char>
    decreases s.len(),
{
    if s.len() == 0 {
        Seq::empty()
    } else {
        apply_to(sys, s[0]) + rewrite(sys, s.drop_first())
    }
}

/// `n` rounds of rewriting applied to `s`.
pub open spec fn expand_from(sys: LSystemView, s: Seq<char>, n: nat) -> Seq<char>
    decreases n,
{
    if n == 0 {
        s
    } else {
        expand_from(sys, rewrite(sys, s), (n - 1) as nat)
    }
}

/// The expansion of the definition's seed after `n` rounds.  This is a
/// pure function of the definition and `n`: two renders with the same
/// arguments see the same sequence.
pub open spec fn expansion(sys: LSystemView, n: nat) -> Seq<char> {
    expand_from(sys, sys.seed, n)
}

/// How long the single symbol `c` becomes after `n` rounds, computed by
/// substituting rule lengths recursively rather than by expanding.
pub open spec fn symbol_growth(sys: LSystemView, c: char, n: nat) -> nat
    decreases n, 0nat,
{
    if n == 0 {
        1
    } else {
        sequence_growth(sys, apply_to(sys, c), (n - 1) as nat)
    }
}

/// How long the sequence `s` becomes after `n` rounds, symbol by symbol.
pub open spec fn sequence_growth(sys: LSystemView, s: Seq<char>, n: nat) -> nat
    decreases n, s.len(),
{
    if s.len() == 0 {
        0
    } else {
        symbol_growth(sys, s[0], n) + sequence_growth(sys, s.drop_first(), n)
    }
}

/// Rewriting distributes over concatenation.
pub proof fn lemma_rewrite_concat(sys: LSystemView, a: Seq<char>, b: Seq<char>)
    ensures
        rewrite(sys, a + b) == rewrite(sys, a) + rewrite(sys, b),
    decreases a.len(),
{
    if a.len() == 0 {
        assert(a + b =~= b);
        assert(rewrite(sys, a) + rewrite(sys, b) =~= rewrite(sys, b));
    } else {
        assert((a + b).drop_first() =~= a.drop_first() + b);
        lemma_rewrite_concat(sys, a.drop_first(), b);
        assert(rewrite(sys, a + b) =~= rewrite(sys, a) + rewrite(sys, b));
    }
}

/// Rewriting a sequence extended by one symbol appends that symbol's
/// replacement.
pub proof fn lemma_rewrite_push(sys: LSystemView, s: Seq<char>, c: char)
    ensures
        rewrite(sys, s.push(c)) == rewrite(sys, s) + apply_to(sys, c),
{
    reveal_with_fuel(rewrite, 3);
    lemma_rewrite_concat(sys, s, seq![c]);
    assert(s.push(c) =~= s + seq![c]);
    assert(seq![c].drop_first() =~= Seq::<char>::empty());
    assert(rewrite(sys, seq![c]) =~= apply_to(sys, c) + rewrite(sys, seq![c].drop_first()));
    assert(rewrite(sys, seq![c]) =~= apply_to(sys, c));
}

/// The rounds of expansion can be peeled off at either end: expanding
/// `n + 1` rounds is one round of rewriting after `n` rounds.
pub proof fn lemma_expand_unfold_last(sys: LSystemView, s: Seq<char>, n: nat)
    ensures
        expand_from(sys, s, n + 1) == rewrite(sys, expand_from(sys, s, n)),
    decreases n,
{
    reveal_with_fuel(expand_from, 2);
    if n > 0 {
        lemma_expand_unfold_last(sys, rewrite(sys, s), (n - 1) as nat);
    }
}

/// Zero rounds leave every symbol in place: growth is the length.
proof fn lemma_sequence_growth_zero(sys: LSystemView, s: Seq<char>)
    ensures
        sequence_growth(sys, s, 0) == s.len(),
    decreases s.len(),
{
    reveal_with_fuel(sequence_growth, 2);
    reveal_with_fuel(symbol_growth, 2);
    if s.len() > 0 {
        lemma_sequence_growth_zero(sys, s.drop_first());
    }
}

/// Growth is additive over concatenation.
proof fn lemma_sequence_growth_concat(sys: LSystemView, a: Seq<char>, b: Seq<char>, n: nat)
    ensures
        sequence_growth(sys, a + b, n) == sequence_growth(sys, a, n) + sequence_growth(sys, b, n),
    decreases a.len(),
{
    if a.len() == 0 {
        assert(a + b =~= b);
    } else {
        assert((a + b).drop_first() =~= a.drop_first() + b);
        lemma_sequence_growth_concat(sys, a.drop_first(), b, n);
    }
}

/// The growth of a rewritten sequence over `n` rounds is the growth of the
/// original over `n + 1` rounds.
proof fn lemma_sequence_growth_rewrite(sys: LSystemView, s: Seq<char>, n: nat)
    ensures
        sequence_growth(sys, rewrite(sys, s), n) == sequence_growth(sys, s, n + 1),
    decreases s.len(),
{
    reveal_with_fuel(sequence_growth, 2);
    reveal_with_fuel(symbol_growth, 2);
    reveal_with_fuel(rewrite, 2);
    if s.len() > 0 {
        lemma_sequence_growth_concat(sys, apply_to(sys, s[0]), rewrite(sys, s.drop_first()), n);
        lemma_sequence_growth_rewrite(sys, s.drop_first(), n);
        assert(sequence_growth(sys, s, n + 1) == symbol_growth(sys, s[0], n + 1)
            + sequence_growth(sys, s.drop_first(), n + 1));
        assert(symbol_growth(sys, s[0], n + 1) == sequence_growth(sys, apply_to(sys, s[0]), n));
    }
}

/// The length of an expansion is the recursively substituted growth of
/// the start sequence: expansion length is a pure function of the
/// definition and the iteration count.
pub proof fn lemma_expand_from_length(sys: LSystemView, s: Seq<char>, n: nat)
    ensures
        expand_from(sys, s, n).len() == sequence_growth(sys, s, n),
    decreases n,
{
    if n == 0 {
        lemma_sequence_growth_zero(sys, s);
    } else {
        lemma_expand_from_length(sys, rewrite(sys, s), (n - 1) as nat);
        lemma_sequence_growth_rewrite(sys, s, (n - 1) as nat);
    }
}

/// Expanding zero rounds returns the seed verbatim.
pub proof fn lemma_expansion_zero(sys: LSystemView)
    ensures
        expansion(sys, 0) == sys.seed,
{
}

/// The length of the seed's expansion equals the value obtained by
/// substituting each symbol's rule length recursively.
pub proof fn lemma_expansion_length(sys: LSystemView, n: nat)
    ensures
        expansion(sys, n).len() == sequence_growth(sys, sys.seed, n),
{
    lemma_expand_from_length(sys, sys.seed, n);
}

/// Whether `c` occurs in `v`.
fn contains_char(v: &Vec<char>, c: char) -> (b: bool)
    ensures
        b == v@.contains(c),
{
    let mut i: usize = 0;
    while i < v.len()
        invariant
            i <= v.len(),
            forall|j: int| 0 <= j < i ==> v@[j] != c,
        decreases v.len() - i,
    {
        if v[i] == c {
            return true;
        }
        i += 1;
    }
    false
}

/// The replacement of the first rule that fires on `c`, if any.
fn lookup_rule<'a>(rules: &'a Vec<Rule>, c: char) -> (r: Option<&'a Vec<char>>)
    ensures
        match r {
            Some(replacement) => find_rule(
                rules_view(rules@),
                c,
            ) == Some(replacement@),
            None => find_rule(rules_view(rules@), c) is None,
        },
{
    let ghost rv = rules_view(rules@);
    proof {
        assert(rv.skip(0) =~= rv);
    }
    let mut i: usize = 0;
    while i < rules.len()
        invariant
            i <= rules.len(),
            rv == rules_view(rules@),
            find_rule(rv, c) == find_rule(rv.skip(i as int), c),
        decreases rules.len() - i,
    {
        proof {
            assert(rv.skip(i as int)[0] == rv[i as int]);
        }
        if rules[i].symbol == c {
            return Some(&rules[i].replacement);
        }
        proof {
            assert(rv.skip(i as int).drop_first() =~= rv.skip(i as int + 1));
        }
        i += 1;
    }
    proof {
        assert(rv.skip(rules@.len() as int) =~= Seq::<(char, Seq<char>)>::empty());
    }
    None
}

/// One round of parallel rewriting, building the next generation into a
/// fresh sequence.
fn rewrite_step(system: &LSystem, cur: &Vec<char>) -> (r: Vec<char>)
    ensures
        r@ == rewrite(system@, cur@),
{
    let mut out: Vec<char> = Vec::new();
    let mut i: usize = 0;
    while i < cur.len()
        invariant
            i <= cur.len(),
            out@ == rewrite(system@, cur@.take(i as int)),
        decreases cur.len() - i,
    {
        let c = cur[i];
        proof {
            assert(cur@.take(i as int).push(c) =~= cur@.take(i as int + 1));
            lemma_rewrite_push(system@, cur@.take(i as int), c);
        }
        if contains_char(&system.variables, c) {
            match lookup_rule(&system.rules, c) {
                Some(replacement) => {
                    let mut j: usize = 0;
                    let ghost out0 = out@;
                    while j < replacement.len()
                        invariant
                            j <= replacement.len(),
                            out@ == out0 + replacement@.take(j as int),
                        decreases replacement.len() - j,
                    {
                        proof {
                            assert(replacement@.take(j as int).push(replacement@[j as int])
                                =~= replacement@.take(j as int + 1));
                        }
                        out.push(replacement[j]);
                        j += 1;
                    }
                    proof {
                        assert(replacement@.take(replacement@.len() as int) =~= replacement@);
                    }
                },
                None => {
                    out.push(c);
                    proof {
                        assert(apply_to(system@, c) =~= seq![c]);
                        assert(out@ =~= rewrite(system@, cur@.take(i as int)) + seq![c]);
                    }
                },
            }
        } else {
            out.push(c);
            proof {
                assert(apply_to(system@, c) =~= seq![c]);
                assert(out@ =~= rewrite(system@, cur@.take(i as int)) + seq![c]);
            }
        }
        i += 1;
    }
    proof {
        assert(cur@.take(cur@.len() as int) =~= cur@);
    }
    out
}

/// Copy a symbol sequence.
fn copy_chars(v: &Vec<char>) -> (r: Vec<char>)
    ensures
        r@ == v@,
{
    let mut out: Vec<char> = Vec::new();
    let mut i: usize = 0;
    while i < v.len()
        invariant
            i <= v.len(),
            out@ == v@.take(i as int),
        decreases v.len() - i,
    {
        proof {
            assert(v@.take(i as int).push(v@[i as int]) =~= v@.take(i as int + 1));
        }
        out.push(v[i]);
        i += 1;
    }
    proof {
        assert(v@.take(v@.len() as int) =~= v@);
    }
    out
}

/// Expand the definition's seed by `iterations` rounds of rewriting.
/// Zero rounds yield the seed verbatim; a request above the definition's
/// ceiling is rejected with `IterationLimitExceeded`.
pub fn expand_lsystem(system: &LSystem, iterations: u32) -> (r: Result<Vec<char>, RenderError>)
    ensures
        r is Ok <==> iterations <= system.max_rounds,
        r is Ok ==> r->Ok_0@ == expansion(system@, iterations as nat),
        r is Err ==> r->Err_0 == RenderError::IterationLimitExceeded,
{
    if iterations > system.max_rounds {
        return Err(RenderError::IterationLimitExceeded);
    }
    let mut sequence = copy_chars(&system.seed);
    let mut round: u32 = 0;
    while round < iterations
        invariant
            round <= iterations,
            sequence@ == expand_from(system@, system@.seed, round as nat),
        decreases iterations - round,
    {
        proof {
            lemma_expand_unfold_last(system@, system@.seed, round as nat);
        }
        sequence = rewrite_step(system, &sequence);
        round += 1;
    }
    Ok(sequence)
}

} // verus!
