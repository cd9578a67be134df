//! The dictionary together with the matcher that was compiled from it.
//!
//! The matcher is rebuilt in full whenever rows are entered; between two
//! loads it always stands for the dictionary as it is. Priority in matching
//! is the order of the dictionary's rows, which is the order in which the
//! caller handed them over.

use vstd::prelude::*;

use crate::error::VVError;
use crate::matcher::Matcher;
use crate::matcher::automaton_builds;
use crate::matcher::kept;
use crate::matcher::originals;
use crate::matcher::replacements;
use crate::matcher::rewritten;
use crate::words::Dict;
use crate::words::Words;
use crate::words::copy_rows;
use crate::words::distinct_numbers;
use crate::words::enter_rows;
use crate::words::entries_of;
use crate::words::lemma_loaded_distinct;
use crate::words::loaded;
use crate::words::row_pairs;
use crate::words::rows_of;

verus! {

/// A text as it is sent to the engine: rewritten by the dictionary's
/// entries, in their order, where a matcher was compiled, and as it is
/// otherwise.
pub open spec fn normalized(d: Dict, compiled: bool, text: Seq<char>) -> Seq<char> {
    if compiled {
        rewritten(originals(row_pairs(d)), replacements(row_pairs(d)), text)
    } else {
        text
    }
}

/// Whether a matcher can be compiled from a dictionary: always where no
/// entry has an original that is not empty, and otherwise where the
/// automaton can be built from the originals that are not empty.
pub open spec fn compiles(d: Dict) -> bool {
    kept(row_pairs(d)).len() == 0 || automaton_builds(originals(kept(row_pairs(d))))
}

/// A dictionary and, where one could be built, its matcher.
pub struct Lexicon {
    words: Vec<Words>,
    ac_tpl: Option<Matcher>,
}

impl Lexicon {
    #[verifier::type_invariant]
    spec fn well_formed(&self) -> bool {
        &&& distinct_numbers(rows_of(self.words@))
        &&& self.ac_tpl matches Some(m) ==> m.patterns() == originals(
            row_pairs(rows_of(self.words@)),
        ) && m.substitutes() == replacements(row_pairs(rows_of(self.words@)))
    }

    /// The dictionary: its rows in order of priority.
    pub closed spec fn dict(&self) -> Dict {
        rows_of(self.words@)
    }

    /// Whether a matcher was compiled from the dictionary.
    pub closed spec fn compiled(&self) -> bool {
        self.ac_tpl is Some
    }

    /// An empty dictionary with its matcher, which leaves every text as it
    /// is.
    pub fn new() -> (r: Lexicon)
        ensures
            r.dict() == Seq::<crate::words::Row>::empty(),
            r.compiled(),
    {
        let words: Vec<Words> = Vec::new();
        let entries: Vec<(String, String)> = Vec::new();
        proof {
            assert(rows_of(words@) =~= Seq::empty());
            assert(crate::text::pairs(entries@) =~= Seq::empty());
            assert(row_pairs(rows_of(words@)) =~= Seq::empty());
        }
        let ac_tpl = match Matcher::compile(&entries) {
            Ok(m) => Some(m),
            Err(_) => None,
        };
        Lexicon { words, ac_tpl }
    }

    /// Enters rows into the dictionary in their order and compiles the
    /// matcher anew from the whole dictionary. A row whose sequence number
    /// is in the dictionary takes the place of the entry that has it; any
    /// other row goes to the end. Where the matcher cannot be built, the
    /// dictionary keeps the rows, no matcher is left, and the error says so.
    pub fn load(&mut self, rows: &Vec<Words>) -> (r: Result<(), VVError>)
        ensures
            final(self).dict() == loaded(old(self).dict(), rows_of(rows@)),
            distinct_numbers(final(self).dict()),
            final(self).compiled() == (r is Ok),
            r is Ok <==> compiles(final(self).dict()),
            r matches Err(e) ==> e == VVError::MatcherTooLarge,
    {
        proof {
            use_type_invariant(&*self);
            lemma_loaded_distinct(rows_of(self.words@), rows_of(rows@));
        }
        self.ac_tpl = None;
        let mut words: Vec<Words> = Vec::new();
        std::mem::swap(&mut self.words, &mut words);
        enter_rows(&mut words, rows);
        let entries = entries_of(&words);
        self.words = words;
        match Matcher::compile(&entries) {
            Ok(m) => {
                self.ac_tpl = Some(m);
                Ok(())
            },
            Err(e) => Err(e),
        }
    }

    /// Whether a matcher was compiled from the dictionary.
    pub fn is_compiled(&self) -> (r: bool)
        ensures
            r == self.compiled(),
    {
        self.ac_tpl.is_some()
    }

    /// The dictionary as rows, in its order; no sequence number occurs
    /// twice among them.
    pub fn rows(&self) -> (r: Vec<Words>)
        ensures
            rows_of(r@) == self.dict(),
            distinct_numbers(rows_of(r@)),
    {
        proof {
            use_type_invariant(self);
        }
        copy_rows(&self.words)
    }

    /// The text as the dictionary rewrites it; the text itself where no
    /// matcher was compiled.
    pub fn normalize(&self, txt: &str) -> (r: String)
        ensures
            r@ == normalized(self.dict(), self.compiled(), txt@),
    {
        proof {
            use_type_invariant(self);
        }
        match &self.ac_tpl {
            None => txt.to_owned(),
            Some(m) => m.rewrite(txt),
        }
    }
}

} // verus!
