//! Rewriting text with a priority-ordered list of patterns.
//!
//! The meaning of a rewrite is given by [`rewritten`]: the text is read once
//! from the left; at the first place where a pattern occurs, the pattern that
//! stands earliest in the list is replaced, and reading goes on behind it.
//!
//! It is a rule of this library that an empty pattern occurs nowhere: an
//! entry with an empty original is kept in the list and never used.

use aho_corasick::AhoCorasick;
use aho_corasick::BuildError;
use aho_corasick::MatchKind;
use vstd::prelude::*;

use crate::error::VVError;
use crate::text::pairs;
use crate::text::texts;

verus! {

/// `p` stands in `text` at position `pos`. An empty pattern stands nowhere.
pub open spec fn occurs_at(p: Seq<char>, text: Seq<char>, pos: int) -> bool {
    &&& p.len() > 0
    &&& 0 <= pos
    &&& pos + p.len() <= text.len()
    &&& text.subrange(pos, pos + p.len()) == p
}

/// The index of the first pattern, from index `k` on, that stands in `text`
/// at `pos`; the number of patterns if none does.
pub open spec fn first_from(pats: Seq<Seq<char>>, text: Seq<char>, pos: int, k: int) -> int
    decreases pats.len() - k,
{
    if k < 0 || k >= pats.len() {
        pats.len() as int
    } else if occurs_at(pats[k], text, pos) {
        k
    } else {
        first_from(pats, text, pos, k + 1)
    }
}

/// What rewriting makes of `text` from position `pos` on. The lists of
/// patterns and replacements are meant to be of one length.
pub open spec fn rewrite_from(
    pats: Seq<Seq<char>>,
    reps: Seq<Seq<char>>,
    text: Seq<char>,
    pos: int,
) -> Seq<char>
    decreases text.len() - pos,
{
    if pos < 0 || pos >= text.len() {
        Seq::empty()
    } else {
        let k = first_from(pats, text, pos, 0);
        if 0 <= k < pats.len() && k < reps.len() && occurs_at(pats[k], text, pos) {
            reps[k] + rewrite_from(pats, reps, text, pos + pats[k].len())
        } else {
            seq![text[pos]] + rewrite_from(pats, reps, text, pos + 1)
        }
    }
}

/// The text in which every non-overlapping occurrence of a pattern, found
/// from the left with the earlier pattern preferred, is replaced by the
/// replacement of the same index.
pub open spec fn rewritten(pats: Seq<Seq<char>>, reps: Seq<Seq<char>>, text: Seq<char>) -> Seq<
    char,
> {
    rewrite_from(pats, reps, text, 0)
}

/// No pattern stands anywhere in `text`.
pub open spec fn free_of(pats: Seq<Seq<char>>, text: Seq<char>) -> bool {
    forall|k: int, pos: int|
        0 <= k < pats.len() && 0 <= pos < text.len() ==> !#[trigger] occurs_at(pats[k], text, pos)
}

/// The entries that take part in matching: those whose original is not
/// empty, in their order.
pub open spec fn kept(entries: Seq<(Seq<char>, Seq<char>)>) -> Seq<(Seq<char>, Seq<char>)>
    decreases entries.len(),
{
    if entries.len() == 0 {
        Seq::empty()
    } else if entries.last().0.len() > 0 {
        kept(entries.drop_last()).push(entries.last())
    } else {
        kept(entries.drop_last())
    }
}

/// The originals of a list of entries.
pub open spec fn originals(entries: Seq<(Seq<char>, Seq<char>)>) -> Seq<Seq<char>> {
    Seq::new(entries.len(), |i: int| entries[i].0)
}

/// The replacements of a list of entries.
pub open spec fn replacements(entries: Seq<(Seq<char>, Seq<char>)>) -> Seq<Seq<char>> {
    Seq::new(entries.len(), |i: int| entries[i].1)
}

/// The automaton of the `aho-corasick` crate.
#[verifier::external_type_specification]
#[verifier::external_body]
pub struct ExAhoCorasick(aho_corasick::AhoCorasick);

/// The error with which the `aho-corasick` crate refuses to build an automaton.
#[verifier::external_type_specification]
#[verifier::external_body]
pub struct ExBuildError(aho_corasick::BuildError);

/// The patterns that an automaton was built from, in the order in which they
/// were given.
pub uninterp spec fn automaton_patterns(ac: AhoCorasick) -> Seq<Seq<char>>;

/// Whether an automaton was built as [`build_leftmost_first`] builds it: to
/// report the leftmost match and, among several at one place, that of the
/// earliest pattern, with every other setting of the builder at its default.
pub uninterp spec fn automaton_leftmost_first(ac: AhoCorasick) -> bool;

/// Whether the `aho-corasick` crate builds an automaton from these patterns;
/// it refuses a set that is too large for its identifiers.
pub uninterp spec fn automaton_builds(patterns: Seq<Seq<char>>) -> bool;

/// Calls `AhoCorasickBuilder::build` of the `aho-corasick` crate, with the
/// match kind set to `MatchKind::LeftmostFirst` and every other setting at its
/// default. The contract says that the outcome depends on the patterns alone,
/// and that an automaton that was built holds exactly the patterns given, in
/// their order, and reports matches leftmost-first.
#[verifier::external_body]
fn build_leftmost_first(patterns: &Vec<String>) -> (r: Result<AhoCorasick, BuildError>)
    ensures
        r is Ok <==> automaton_builds(texts(patterns@)),
        r matches Ok(ac) ==> automaton_patterns(ac) == texts(patterns@)
            && automaton_leftmost_first(ac),
{
    AhoCorasick::builder().match_kind(MatchKind::LeftmostFirst).build(patterns)
}

/// Calls `AhoCorasick::replace_all` of the `aho-corasick` crate, which
/// replaces each match that `find_iter` reports by the replacement with the
/// index of the matching pattern and copies the rest of the text. The call
/// panics unless there is one replacement for each pattern. The crate
/// matches bytes; it drops a match that does not begin and end at a
/// character boundary, which no match of a non-empty pattern in a `str`
/// does, so the contract speaks of characters. It states the leftmost-first
/// rule of `MatchKind::LeftmostFirst` as [`rewritten`] does.
#[verifier::external_body]
fn replace_all(ac: &AhoCorasick, text: &str, replace_with: &Vec<String>) -> (r: String)
    requires
        automaton_leftmost_first(*ac),
        replace_with@.len() == automaton_patterns(*ac).len(),
        forall|i: int|
            0 <= i < automaton_patterns(*ac).len() ==> (#[trigger] automaton_patterns(
                *ac,
            )[i]).len() > 0,
    ensures
        r@ == rewritten(automaton_patterns(*ac), texts(replace_with@), text@),
{
    ac.replace_all(text, replace_with.as_slice())
}

/// A compiled dictionary. It stands for the entries that it was compiled
/// from, all of them and in their order. The automaton inside holds the
/// originals that are not empty; there is none where every original is
/// empty or there are no entries at all. It is built once and never changed.
pub struct Matcher {
    ac: Option<AhoCorasick>,
    replace_with: Vec<String>,
    entries: Ghost<Seq<(Seq<char>, Seq<char>)>>,
}

impl Matcher {
    #[verifier::type_invariant]
    spec fn well_formed(&self) -> bool {
        &&& texts(self.replace_with@) == replacements(kept(self.entries@))
        &&& match self.ac {
            Some(ac) => automaton_leftmost_first(ac) && automaton_patterns(ac) == originals(
                kept(self.entries@),
            ),
            None => kept(self.entries@).len() == 0,
        }
    }

    /// The originals of the entries, in the order in which they were given,
    /// which is the order of priority.
    pub closed spec fn patterns(&self) -> Seq<Seq<char>> {
        originals(self.entries@)
    }

    /// The replacements; the one with index `i` belongs to pattern `i`.
    pub closed spec fn substitutes(&self) -> Seq<Seq<char>> {
        replacements(self.entries@)
    }

    /// Builds a matcher from entries in order of priority. No entries at
    /// all, or none with an original that is not empty, always give a
    /// matcher, which leaves every text as it is. Otherwise the outcome is
    /// an error exactly when the automaton cannot be built from the
    /// originals that are not empty.
    pub fn compile(entries: &Vec<(String, String)>) -> (r: Result<Matcher, VVError>)
        ensures
            r is Ok <==> kept(pairs(entries@)).len() == 0 || automaton_builds(
                originals(kept(pairs(entries@))),
            ),
            r matches Ok(m) ==> m.patterns() == originals(pairs(entries@)) && m.substitutes()
                == replacements(pairs(entries@)),
            r matches Err(e) ==> e == VVError::MatcherTooLarge,
    {
        let mut pats: Vec<String> = Vec::new();
        let mut reps: Vec<String> = Vec::new();
        let mut i: usize = 0;
        proof {
            assert(pairs(entries@).take(0) =~= Seq::empty());
            assert(texts(pats@) =~= originals(kept(pairs(entries@).take(0))));
            assert(texts(reps@) =~= replacements(kept(pairs(entries@).take(0))));
        }
        while i < entries.len()
            invariant
                i <= entries.len(),
                texts(pats@) == originals(kept(pairs(entries@).take(i as int))),
                texts(reps@) == replacements(kept(pairs(entries@).take(i as int))),
            decreases entries.len() - i,
        {
            let ghost before = kept(pairs(entries@).take(i as int));
            let ghost next = pairs(entries@).take(i + 1);
            proof {
                assert(next.drop_last() =~= pairs(entries@).take(i as int));
                assert(next.last() == (entries@[i as int].0@, entries@[i as int].1@));
            }
            let ghost pats_before = pats@;
            let ghost reps_before = reps@;
            if !entries[i].0.as_str().is_empty() {
                pats.push(entries[i].0.clone());
                reps.push(entries[i].1.clone());
                proof {
                    assert(kept(next) == before.push(next.last()));
                    assert(texts(pats_before).len() == before.len());
                    assert(texts(reps_before).len() == before.len());
                    assert forall|j: int| 0 <= j < pats@.len() implies texts(pats@)[j]
                        == originals(kept(next))[j] by {
                        if j < before.len() {
                            assert(texts(pats_before)[j] == originals(before)[j]);
                        }
                    }
                    assert forall|j: int| 0 <= j < reps@.len() implies texts(reps@)[j]
                        == replacements(kept(next))[j] by {
                        if j < before.len() {
                            assert(texts(reps_before)[j] == replacements(before)[j]);
                        }
                    }
                    assert(texts(pats@) =~= originals(kept(next)));
                    assert(texts(reps@) =~= replacements(kept(next)));
                }
            } else {
                proof {
                    assert(kept(next) == before);
                }
            }
            i = i + 1;
        }
        proof {
            assert(pairs(entries@).take(entries@.len() as int) =~= pairs(entries@));
            assert(texts(pats@).len() == pats@.len());
        }
        if pats.len() == 0 {
            return Ok(Matcher { ac: None, replace_with: reps, entries: Ghost(pairs(entries@)) });
        }
        match build_leftmost_first(&pats) {
            Ok(ac) => Ok(Matcher { ac: Some(ac), replace_with: reps, entries: Ghost(pairs(entries@)) }),
            Err(_) => Err(VVError::MatcherTooLarge),
        }
    }

    /// Rewrites `text`: every occurrence of a pattern, found from the left
    /// without overlap and with the earlier pattern preferred, gives way to
    /// its replacement; the rest is copied. An empty pattern stands nowhere.
    pub fn rewrite(&self, text: &str) -> (r: String)
        ensures
            r@ == rewritten(self.patterns(), self.substitutes(), text@),
    {
        proof {
            use_type_invariant(self);
            lemma_kept_rewrites(self.entries@, text@);
            lemma_kept_not_empty(self.entries@);
        }
        match &self.ac {
            Some(ac) => {
                proof {
                    assert(texts(self.replace_with@).len() == self.replace_with@.len());
                }
                replace_all(ac, text, &self.replace_with)
            },
            None => {
                proof {
                    lemma_rewrite_identity(
                        originals(kept(self.entries@)),
                        replacements(kept(self.entries@)),
                        text@,
                    );
                }
                text.to_owned()
            },
        }
    }
}

/// What [`first_from`] finds: the first pattern from index `from` on that
/// stands at the position.
pub proof fn lemma_first_from(pats: Seq<Seq<char>>, text: Seq<char>, pos: int, from: int)
    requires
        0 <= from <= pats.len(),
    ensures
        from <= first_from(pats, text, pos, from) <= pats.len(),
        first_from(pats, text, pos, from) < pats.len() ==> occurs_at(
            pats[first_from(pats, text, pos, from)],
            text,
            pos,
        ),
        forall|j: int|
            from <= j < first_from(pats, text, pos, from) ==> !#[trigger] occurs_at(
                pats[j],
                text,
                pos,
            ),
    decreases pats.len() - from,
{
    if from < pats.len() && !occurs_at(pats[from], text, pos) {
        lemma_first_from(pats, text, pos, from + 1);
    }
}

/// The first entry whose original stands in `text` at `pos`, if there is one.
pub open spec fn chosen(entries: Seq<(Seq<char>, Seq<char>)>, text: Seq<char>, pos: int) -> Option<
    (Seq<char>, Seq<char>),
> {
    let k = first_from(originals(entries), text, pos, 0);
    if 0 <= k < entries.len() {
        Some(entries[k])
    } else {
        None
    }
}

proof fn lemma_chosen_push(
    entries: Seq<(Seq<char>, Seq<char>)>,
    x: (Seq<char>, Seq<char>),
    text: Seq<char>,
    pos: int,
)
    ensures
        chosen(entries.push(x), text, pos) == if chosen(entries, text, pos) is Some {
            chosen(entries, text, pos)
        } else if occurs_at(x.0, text, pos) {
            Some(x)
        } else {
            None
        },
{
    let p = originals(entries);
    let q = originals(entries.push(x));
    lemma_first_from(p, text, pos, 0);
    lemma_first_from(q, text, pos, 0);
    let r = first_from(p, text, pos, 0);
    let t = first_from(q, text, pos, 0);
    assert forall|j: int| 0 <= j < p.len() implies q[j] == p[j] by {}
    assert(q[p.len() as int] == x.0);
    if r < p.len() {
        assert(occurs_at(q[r], text, pos));
        if t < r {
            assert(occurs_at(p[t], text, pos));
        }
        assert(t == r);
    } else {
        if t < p.len() {
            assert(occurs_at(p[t], text, pos));
        }
        if occurs_at(x.0, text, pos) {
            assert(occurs_at(q[p.len() as int], text, pos));
            assert(t == p.len());
        } else {
            assert(t == q.len());
        }
    }
}

proof fn lemma_chosen_kept(entries: Seq<(Seq<char>, Seq<char>)>, text: Seq<char>, pos: int)
    ensures
        chosen(kept(entries), text, pos) == chosen(entries, text, pos),
    decreases entries.len(),
{
    if entries.len() > 0 {
        let front = entries.drop_last();
        let last = entries.last();
        assert(entries =~= front.push(last));
        lemma_chosen_kept(front, text, pos);
        lemma_chosen_push(front, last, text, pos);
        if last.0.len() > 0 {
            lemma_chosen_push(kept(front), last, text, pos);
        }
    }
}

proof fn lemma_kept_rewrites_from(entries: Seq<(Seq<char>, Seq<char>)>, text: Seq<char>, pos: int)
    ensures
        rewrite_from(originals(kept(entries)), replacements(kept(entries)), text, pos)
            == rewrite_from(originals(entries), replacements(entries), text, pos),
    decreases text.len() - pos,
{
    if 0 <= pos < text.len() {
        let k = kept(entries);
        lemma_chosen_kept(entries, text, pos);
        lemma_first_from(originals(entries), text, pos, 0);
        lemma_first_from(originals(k), text, pos, 0);
        let a = first_from(originals(entries), text, pos, 0);
        let b = first_from(originals(k), text, pos, 0);
        if a < entries.len() {
            assert(b < k.len());
            assert(k[b] == entries[a]);
            assert(originals(entries)[a] == entries[a].0);
            assert(originals(k)[b] == k[b].0);
            lemma_kept_rewrites_from(entries, text, pos + entries[a].0.len());
        } else {
            assert(b == k.len());
            lemma_kept_rewrites_from(entries, text, pos + 1);
        }
    }
}

/// Entries with an empty original take no part: rewriting by all entries
/// and rewriting by those whose original is not empty give the same text.
pub proof fn lemma_kept_rewrites(entries: Seq<(Seq<char>, Seq<char>)>, text: Seq<char>)
    ensures
        rewritten(originals(kept(entries)), replacements(kept(entries)), text) == rewritten(
            originals(entries),
            replacements(entries),
            text,
        ),
{
    lemma_kept_rewrites_from(entries, text, 0);
}

/// None of the entries that are kept has an empty original.
pub proof fn lemma_kept_not_empty(entries: Seq<(Seq<char>, Seq<char>)>)
    ensures
        forall|i: int| 0 <= i < kept(entries).len() ==> (#[trigger] kept(entries)[i]).0.len() > 0,
        forall|i: int|
            0 <= i < originals(kept(entries)).len() ==> (#[trigger] originals(
                kept(entries),
            )[i]).len() > 0,
    decreases entries.len(),
{
    if entries.len() > 0 {
        let front = kept(entries.drop_last());
        lemma_kept_not_empty(entries.drop_last());
        assert forall|i: int| 0 <= i < kept(entries).len() implies (#[trigger] kept(
            entries,
        )[i]).0.len() > 0 by {
            if i < front.len() {
                assert(kept(entries)[i] == front[i]);
            }
        }
    }
    assert forall|i: int| 0 <= i < originals(kept(entries)).len() implies (#[trigger] originals(
        kept(entries),
    )[i]).len() > 0 by {
        assert(originals(kept(entries))[i] == kept(entries)[i].0);
    }
}

proof fn lemma_first_from_none(pats: Seq<Seq<char>>, text: Seq<char>, pos: int, k: int)
    requires
        0 <= k,
        forall|j: int| k <= j < pats.len() ==> !#[trigger] occurs_at(pats[j], text, pos),
    ensures
        first_from(pats, text, pos, k) == pats.len(),
    decreases pats.len() - k,
{
    if k < pats.len() {
        lemma_first_from_none(pats, text, pos, k + 1);
    }
}

proof fn lemma_identity_from(pats: Seq<Seq<char>>, reps: Seq<Seq<char>>, text: Seq<char>, pos: int)
    requires
        free_of(pats, text),
        0 <= pos <= text.len(),
    ensures
        rewrite_from(pats, reps, text, pos) == text.subrange(pos, text.len() as int),
    decreases text.len() - pos,
{
    if pos < text.len() {
        lemma_first_from_none(pats, text, pos, 0);
        lemma_identity_from(pats, reps, text, pos + 1);
        assert(seq![text[pos]] + text.subrange(pos + 1, text.len() as int) =~= text.subrange(
            pos,
            text.len() as int,
        ));
    } else {
        assert(text.subrange(pos, text.len() as int) =~= Seq::<char>::empty());
    }
}

/// Identity law: a text in which no pattern stands is left as it is.
pub proof fn lemma_rewrite_identity(pats: Seq<Seq<char>>, reps: Seq<Seq<char>>, text: Seq<char>)
    requires
        free_of(pats, text),
    ensures
        rewritten(pats, reps, text) == text,
{
    lemma_identity_from(pats, reps, text, 0);
    assert(text.subrange(0, text.len() as int) =~= text);
}

/// Rewriting twice: where no pattern stands in the outcome of a rewrite,
/// rewriting that outcome again changes nothing.
pub proof fn lemma_rewrite_settled(pats: Seq<Seq<char>>, reps: Seq<Seq<char>>, text: Seq<char>)
    requires
        free_of(pats, rewritten(pats, reps, text)),
    ensures
        rewritten(pats, reps, rewritten(pats, reps, text)) == rewritten(pats, reps, text),
{
    lemma_rewrite_identity(pats, reps, rewritten(pats, reps, text));
}

/// With no patterns at all, every text is left as it is.
pub proof fn lemma_rewrite_no_patterns(reps: Seq<Seq<char>>, text: Seq<char>)
    ensures
        rewritten(Seq::<Seq<char>>::empty(), reps, text) == text,
{
    lemma_rewrite_identity(Seq::<Seq<char>>::empty(), reps, text);
}

} // verus!
