//! The two lookup tables over a list of speakers: from a name to the
//! speaker's index, and from a numeric voice id to the indices of speaker and
//! style.
//!
//! Both tables are filled in the order of the list, so where a name or an id
//! occurs twice, the later occurrence is the one that is found.

use std::collections::HashMap;
use vstd::hash_map::StringHashMap;
use vstd::prelude::*;
use vstd::std_specs::hash::*;

use vstd::string::StringExecFns;

use crate::client::Speaker;
use crate::client::Style;
use crate::text::decimal;
use crate::text::decimal_string;
use crate::text::quoted;
use crate::text::quoted_string;
use crate::text::texts;

verus! {

/// The table from name to index, after the speakers were entered in order.
pub open spec fn name_index(sp: Seq<Speaker>) -> Map<Seq<char>, usize>
    decreases sp.len(),
{
    if sp.len() == 0 {
        Map::empty()
    } else {
        name_index(sp.drop_last()).insert(sp.last().name@, (sp.len() - 1) as usize)
    }
}

/// The table `m` after the styles of speaker `idx` were entered in order.
pub open spec fn style_index(m: Map<i32, (usize, usize)>, idx: usize, styles: Seq<Style>) -> Map<
    i32,
    (usize, usize),
>
    decreases styles.len(),
{
    if styles.len() == 0 {
        m
    } else {
        style_index(m, idx, styles.drop_last()).insert(
            styles.last().id,
            (idx, (styles.len() - 1) as usize),
        )
    }
}

/// The table from voice id to (speaker index, style index), after the
/// speakers and, within each, the styles were entered in order.
pub open spec fn voice_index(sp: Seq<Speaker>) -> Map<i32, (usize, usize)>
    decreases sp.len(),
{
    if sp.len() == 0 {
        Map::empty()
    } else {
        style_index(voice_index(sp.drop_last()), (sp.len() - 1) as usize, sp.last().styles@)
    }
}

/// Speaker `i` bears the name, and no later speaker does.
pub open spec fn named_last(sp: Seq<Speaker>, name: Seq<char>, i: int) -> bool {
    &&& 0 <= i < sp.len()
    &&& sp[i].name@ == name
    &&& forall|j: int| i < j < sp.len() ==> (#[trigger] sp[j]).name@ != name
}

/// No speaker bears the name.
pub open spec fn unnamed(sp: Seq<Speaker>, name: Seq<char>) -> bool {
    forall|j: int| 0 <= j < sp.len() ==> (#[trigger] sp[j]).name@ != name
}

/// Style `j` of speaker `i` has the voice id.
pub open spec fn voiced_at(sp: Seq<Speaker>, id: i32, i: int, j: int) -> bool {
    &&& 0 <= i < sp.len()
    &&& 0 <= j < sp[i].styles@.len()
    &&& sp[i].styles@[j].id == id
}

/// Style `j` of speaker `i` has the voice id, and it is the last place that
/// has it, in the order of speakers and, within a speaker, of styles.
pub open spec fn voiced_last(sp: Seq<Speaker>, id: i32, i: int, j: int) -> bool {
    &&& voiced_at(sp, id, i, j)
    &&& forall|a: int, b: int| #[trigger]
        voiced_at(sp, id, a, b) ==> a < i || (a == i && b <= j)
}

/// No voice id belongs to two places.
pub open spec fn distinct_ids(sp: Seq<Speaker>) -> bool {
    forall|id: i32, a: int, b: int, c: int, d: int|
        #[trigger] voiced_at(sp, id, a, b) && #[trigger] voiced_at(sp, id, c, d) ==> a == c && b
            == d
}

/// What the name table holds: a name is in it exactly when a speaker bears
/// it, and it leads to the last speaker that does.
pub proof fn lemma_name_index(sp: Seq<Speaker>, name: Seq<char>)
    requires
        sp.len() <= usize::MAX,
    ensures
        name_index(sp).contains_key(name) <==> !unnamed(sp, name),
        name_index(sp).contains_key(name) ==> named_last(sp, name, name_index(sp)[name] as int),
    decreases sp.len(),
{
    if sp.len() > 0 {
        let front = sp.drop_last();
        lemma_name_index(front, name);
        if sp.last().name@ == name {
            assert(sp[sp.len() - 1].name@ == name);
        } else {
            if !unnamed(front, name) {
                let j = choose|j: int| 0 <= j < front.len() && (#[trigger] front[j]).name@ == name;
                assert(sp[j].name@ == name);
                let i = name_index(front)[name] as int;
                assert(front[i] == sp[i]);
                assert forall|k: int| i < k < sp.len() implies (#[trigger] sp[k]).name@ != name by {
                    if k < front.len() {
                        assert(front[k] == sp[k]);
                    }
                }
            } else {
                assert forall|j: int| 0 <= j < sp.len() implies (#[trigger] sp[j]).name@
                    != name by {
                    if j < front.len() {
                        assert(front[j] == sp[j]);
                    }
                }
            }
        }
    }
}

proof fn lemma_style_index(m: Map<i32, (usize, usize)>, idx: usize, styles: Seq<Style>, id: i32)
    requires
        styles.len() <= usize::MAX,
    ensures
        style_index(m, idx, styles).contains_key(id) <==> m.contains_key(id) || exists|b: int|
            0 <= b < styles.len() && (#[trigger] styles[b]).id == id,
        (forall|b: int| 0 <= b < styles.len() ==> (#[trigger] styles[b]).id != id)
            && m.contains_key(id) ==> style_index(m, idx, styles)[id] == m[id],
        (exists|b: int| 0 <= b < styles.len() && (#[trigger] styles[b]).id == id) ==> ({
            let v = style_index(m, idx, styles)[id];
            &&& v.0 == idx
            &&& 0 <= v.1 < styles.len()
            &&& styles[v.1 as int].id == id
            &&& forall|b: int| v.1 < b < styles.len() ==> (#[trigger] styles[b]).id != id
        }),
    decreases styles.len(),
{
    if styles.len() > 0 {
        let front = styles.drop_last();
        lemma_style_index(m, idx, front, id);
        if styles.last().id == id {
            assert(styles[styles.len() - 1].id == id);
        } else {
            if exists|b: int| 0 <= b < styles.len() && (#[trigger] styles[b]).id == id {
                let b = choose|b: int| 0 <= b < styles.len() && (#[trigger] styles[b]).id == id;
                assert(front[b].id == id);
                let v = style_index(m, idx, front)[id];
                assert(front[v.1 as int] == styles[v.1 as int]);
                assert forall|c: int| v.1 < c < styles.len() implies (#[trigger] styles[c]).id
                    != id by {
                    if c < front.len() {
                        assert(front[c] == styles[c]);
                    }
                }
            }
            if exists|b: int| 0 <= b < front.len() && (#[trigger] front[b]).id == id {
                let b = choose|b: int| 0 <= b < front.len() && (#[trigger] front[b]).id == id;
                assert(styles[b].id == id);
            }
            if forall|b: int| 0 <= b < styles.len() ==> (#[trigger] styles[b]).id != id {
                assert forall|b: int| 0 <= b < front.len() implies (#[trigger] front[b]).id
                    != id by {
                    assert(front[b] == styles[b]);
                }
            }
        }
    }
}

/// What the voice table holds: an id is in it exactly when some style has
/// it, and it leads to the last place that does.
pub proof fn lemma_voice_index(sp: Seq<Speaker>, id: i32)
    requires
        sp.len() <= usize::MAX,
    ensures
        voice_index(sp).contains_key(id) <==> exists|a: int, b: int| voiced_at(sp, id, a, b),
        voice_index(sp).contains_key(id) ==> voiced_last(
            sp,
            id,
            voice_index(sp)[id].0 as int,
            voice_index(sp)[id].1 as int,
        ),
    decreases sp.len(),
{
    if sp.len() > 0 {
        let front = sp.drop_last();
        let n = sp.len() - 1;
        let styles = sp.last().styles@;
        assert(sp[n] == sp.last());
        assert(styles.len() == sp.last().styles.len());
        lemma_voice_index(front, id);
        lemma_style_index(voice_index(front), n as usize, styles, id);
        assert forall|a: int, b: int| voiced_at(front, id, a, b) implies voiced_at(
            sp,
            id,
            a,
            b,
        ) by {
            assert(front[a] == sp[a]);
        }
        assert forall|a: int, b: int| voiced_at(sp, id, a, b) && a < n implies voiced_at(
            front,
            id,
            a,
            b,
        ) by {
            assert(front[a] == sp[a]);
        }
        if exists|b: int| 0 <= b < styles.len() && (#[trigger] styles[b]).id == id {
            let v = voice_index(sp)[id];
            assert(voiced_at(sp, id, n, v.1 as int));
            assert forall|a: int, b: int| #[trigger] voiced_at(sp, id, a, b) implies a < n || (a
                == n && b <= v.1) by {
                if a == n && b > v.1 {
                    assert(styles[b].id != id);
                }
            }
        } else {
            if voice_index(front).contains_key(id) {
                let v = voice_index(front)[id];
                assert(voiced_at(front, id, v.0 as int, v.1 as int));
                assert(voiced_at(sp, id, v.0 as int, v.1 as int));
                assert forall|a: int, b: int| #[trigger] voiced_at(sp, id, a, b) implies a
                    < v.0 || (a == v.0 && b <= v.1) by {
                    if a == n {
                        assert(styles[b].id == id);
                    } else {
                        assert(voiced_at(front, id, a, b));
                    }
                }
            } else {
                assert forall|a: int, b: int| !voiced_at(sp, id, a, b) by {
                    if voiced_at(sp, id, a, b) {
                        if a == n {
                            assert(styles[b].id == id);
                        } else {
                            assert(voiced_at(front, id, a, b));
                        }
                    }
                }
            }
        }
    }
}

/// Round trip of the voice table: where no voice id belongs to two places,
/// the id of every style leads back to the speaker and the style that it
/// was taken from.
pub proof fn lemma_voice_round_trip(sp: Seq<Speaker>, i: int, j: int)
    requires
        sp.len() <= usize::MAX,
        distinct_ids(sp),
        0 <= i < sp.len(),
        0 <= j < sp[i].styles@.len(),
    ensures
        voice_index(sp).contains_key(sp[i].styles@[j].id),
        voice_index(sp)[sp[i].styles@[j].id] == (i as usize, j as usize),
{
    let id = sp[i].styles@[j].id;
    lemma_voice_index(sp, id);
    assert(voiced_at(sp, id, i, j));
    let v = voice_index(sp)[id];
    assert(voiced_at(sp, id, v.0 as int, v.1 as int));
}

/// Builds both tables from the list of speakers.
pub fn build_indexes(speakers: &Vec<Speaker>) -> (r: (
    StringHashMap<usize>,
    HashMap<i32, (usize, usize)>,
))
    ensures
        r.0@ == name_index(speakers@),
        r.1@ == voice_index(speakers@),
{
    broadcast use group_hash_axioms;

    let mut dct: StringHashMap<usize> = StringHashMap::new();
    let mut hm: HashMap<i32, (usize, usize)> = HashMap::new();
    let mut idx: usize = 0;
    proof {
        assert(speakers@.take(0) =~= Seq::empty());
    }
    while idx < speakers.len()
        invariant
            idx <= speakers.len(),
            dct@ == name_index(speakers@.take(idx as int)),
            hm@ == voice_index(speakers@.take(idx as int)),
        decreases speakers.len() - idx,
    {
        let ghost upto = speakers@.take(idx + 1);
        let ghost base = hm@;
        proof {
            assert(upto.drop_last() =~= speakers@.take(idx as int));
            assert(upto.last() == speakers@[idx as int]);
        }
        dct.insert(speakers[idx].name.clone(), idx);
        let mut i: usize = 0;
        proof {
            assert(speakers@[idx as int].styles@.take(0) =~= Seq::empty());
        }
        while i < speakers[idx].styles.len()
            invariant
                idx < speakers.len(),
                i <= speakers@[idx as int].styles@.len(),
                hm@ == style_index(base, idx, speakers@[idx as int].styles@.take(i as int)),
            decreases speakers@[idx as int].styles@.len() - i,
        {
            let ghost styles = speakers@[idx as int].styles@;
            proof {
                assert(styles.take(i + 1).drop_last() =~= styles.take(i as int));
                assert(styles.take(i + 1).last() == styles[i as int]);
            }
            hm.insert(speakers[idx].styles[i].id, (idx, i));
            i = i + 1;
        }
        proof {
            let styles = speakers@[idx as int].styles@;
            assert(styles.take(styles.len() as int) =~= styles);
        }
        idx = idx + 1;
    }
    proof {
        assert(speakers@.take(speakers@.len() as int) =~= speakers@);
    }
    (dct, hm)
}

/// The index that a name leads to, if a speaker bears it.
pub open spec fn found(sp: Seq<Speaker>, name: Seq<char>) -> Option<usize> {
    if name_index(sp).contains_key(name) {
        Some(name_index(sp)[name])
    } else {
        None
    }
}

/// The voice id of the first style, from index `from` on, with the given
/// name.
pub open spec fn first_style(styles: Seq<Style>, style: Seq<char>, from: int) -> Option<i32>
    decreases styles.len() - from,
{
    if from < 0 || from >= styles.len() {
        None
    } else if styles[from].name@ == style {
        Some(styles[from].id)
    } else {
        first_style(styles, style, from + 1)
    }
}

/// The voice id of a speaker's style, both given by name: that of the first
/// style of that name, of the speaker that the name leads to.
pub open spec fn voice_of(sp: Seq<Speaker>, name: Seq<char>, style: Seq<char>) -> Option<i32> {
    match found(sp, name) {
        Some(i) => first_style(sp[i as int].styles@, style, 0),
        None => None,
    }
}

/// The place that a voice id leads to, if a style has it.
pub open spec fn located(sp: Seq<Speaker>, id: i32) -> Option<(usize, usize)> {
    if voice_index(sp).contains_key(id) {
        Some(voice_index(sp)[id])
    } else {
        None
    }
}

/// The description of a voice id: whether it is known, and the id with the
/// names of speaker and style, or with `UNKNOWN` twice.
pub open spec fn description(sp: Seq<Speaker>, id: i32) -> (bool, Seq<char>) {
    match located(sp, id) {
        Some((i, j)) => (
            true,
            decimal(id as int) + " "@ + sp[i as int].name@ + " "@ + sp[i as int].styles@[j as int].name@,
        ),
        None => (false, decimal(id as int) + " UNKNOWN UNKNOWN"@),
    }
}

/// The line that shows a speaker: its index, a colon and its name.
pub open spec fn speaker_line(idx: int, sp: Speaker) -> Seq<char> {
    decimal(idx) + ": "@ + sp.name@
}

/// The line that shows a style: the indices of speaker and style in
/// brackets, then the style's fields.
pub open spec fn style_line(idx: int, i: int, st: Style) -> Seq<char> {
    " ("@ + decimal(idx) + ", "@ + decimal(i) + "): Style { id: "@ + decimal(st.id as int)
        + ", name: "@ + quoted(st.name@) + " }"@
}

/// The lines of the first `n` styles of speaker `idx`.
pub open spec fn style_lines(idx: int, styles: Seq<Style>, n: int) -> Seq<Seq<char>> {
    Seq::new(n as nat, |i: int| style_line(idx, i, styles[i]))
}

/// The lines that show a list of speakers: for each speaker its line, then
/// one line for each of its styles.
pub open spec fn speaker_lines(sp: Seq<Speaker>) -> Seq<Seq<char>>
    decreases sp.len(),
{
    if sp.len() == 0 {
        Seq::empty()
    } else {
        speaker_lines(sp.drop_last()).push(speaker_line(sp.len() - 1, sp.last())) + style_lines(
            sp.len() - 1,
            sp.last().styles@,
            sp.last().styles@.len() as int,
        )
    }
}

/// The registry of speakers: the list as it was loaded, and the two tables
/// over it. It is not changed after it was built.
pub struct SpeakerRegistry {
    speakers: Vec<Speaker>,
    dct: StringHashMap<usize>,
    hm: HashMap<i32, (usize, usize)>,
}

impl SpeakerRegistry {
    #[verifier::type_invariant]
    spec fn well_formed(&self) -> bool {
        &&& self.dct@ == name_index(self.speakers@)
        &&& self.hm@ == voice_index(self.speakers@)
    }

    /// The speakers, in the order in which they were loaded.
    pub closed spec fn speakers(&self) -> Seq<Speaker> {
        self.speakers@
    }

    /// Builds the registry over a list of speakers.
    pub fn load(speakers: Vec<Speaker>) -> (r: SpeakerRegistry)
        ensures
            r.speakers() == speakers@,
    {
        let (dct, hm) = build_indexes(&speakers);
        SpeakerRegistry { speakers, dct, hm }
    }

    /// The speakers, in the order in which they were loaded.
    pub fn list(&self) -> (r: &Vec<Speaker>)
        ensures
            r@ == self.speakers(),
    {
        &self.speakers
    }

    /// The number of speakers.
    pub fn len(&self) -> (r: usize)
        ensures
            r == self.speakers().len(),
    {
        self.speakers.len()
    }

    /// Whether there is a speaker at `idx` with a style at `i`.
    pub fn has_style(&self, idx: usize, i: usize) -> (r: bool)
        ensures
            r == (idx < self.speakers().len() && i < self.speakers()[idx as int].styles@.len()),
    {
        idx < self.speakers.len() && i < self.speakers[idx].styles.len()
    }

    /// The index of the speaker with exactly this name: the last one, where
    /// several bear it.
    pub fn find_index(&self, name: &str) -> (r: Option<usize>)
        ensures
            r == found(self.speakers(), name@),
            match r {
                Some(i) => named_last(self.speakers(), name@, i as int),
                None => unnamed(self.speakers(), name@),
            },
    {
        proof {
            use_type_invariant(self);
            assert(self.speakers@.len() == self.speakers.len());
            lemma_name_index(self.speakers@, name@);
        }
        match self.dct.get(name) {
            None => None,
            Some(idx) => Some(*idx),
        }
    }

    /// The voice id of the named speaker's style of the given name; none if
    /// the speaker or the style is absent.
    pub fn resolve_voice_id(&self, name: &str, style: &str) -> (r: Option<i32>)
        ensures
            r == voice_of(self.speakers(), name@, style@),
    {
        match self.find_index(name) {
            None => None,
            Some(idx) => {
                let wanted: String = style.to_owned();
                let styles = &self.speakers[idx].styles;
                let mut i: usize = 0;
                while i < styles.len()
                    invariant
                        i <= styles@.len(),
                        wanted@ == style@,
                        idx < self.speakers().len(),
                        found(self.speakers(), name@) == Some(idx),
                        styles@ == self.speakers()[idx as int].styles@,
                        first_style(styles@, style@, 0) == first_style(styles@, style@, i as int),
                    decreases styles@.len() - i,
                {
                    if styles[i].name == wanted {
                        assert(first_style(styles@, style@, i as int) == Some(styles@[i as int].id));
                        return Some(styles[i].id);
                    }
                    assert(first_style(styles@, style@, i as int) == first_style(
                        styles@,
                        style@,
                        i + 1,
                    ));
                    i = i + 1;
                }
                None
            },
        }
    }

    /// The name of the speaker at `idx`.
    pub fn speaker_name(&self, idx: usize) -> (r: &String)
        requires
            idx < self.speakers().len(),
        ensures
            r == self.speakers()[idx as int].name,
    {
        &self.speakers[idx].name
    }

    /// The name of style `i` of the speaker at `idx`.
    pub fn style_name(&self, idx: usize, i: usize) -> (r: &String)
        requires
            idx < self.speakers().len(),
            i < self.speakers()[idx as int].styles@.len(),
        ensures
            r == self.speakers()[idx as int].styles@[i as int].name,
    {
        &self.speakers[idx].styles[i].name
    }

    /// The voice id of style `i` of the speaker at `idx`.
    pub fn voice_id(&self, idx: usize, i: usize) -> (r: i32)
        requires
            idx < self.speakers().len(),
            i < self.speakers()[idx as int].styles@.len(),
        ensures
            r == self.speakers()[idx as int].styles@[i as int].id,
    {
        self.speakers[idx].styles[i].id
    }

    /// The place of a voice id: the indices of the last speaker and style
    /// that have it.
    pub fn locate(&self, id: i32) -> (r: Option<(usize, usize)>)
        ensures
            r == located(self.speakers(), id),
            match r {
                Some((i, j)) => voiced_last(self.speakers(), id, i as int, j as int),
                None => forall|a: int, b: int| !voiced_at(self.speakers(), id, a, b),
            },
    {
        broadcast use group_hash_axioms;

        proof {
            use_type_invariant(self);
            assert(self.speakers@.len() == self.speakers.len());
            lemma_voice_index(self.speakers@, id);
        }
        match self.hm.get(&id) {
            None => None,
            Some(place) => Some(*place),
        }
    }

    /// The speakers and their styles as lines of text, ready to be shown.
    pub fn lines(&self) -> (r: Vec<String>)
        ensures
            texts(r@) == speaker_lines(self.speakers()),
    {
        let mut out: Vec<String> = Vec::new();
        let mut idx: usize = 0;
        proof {
            assert(self.speakers@.take(0) =~= Seq::empty());
            assert(texts(out@) =~= speaker_lines(self.speakers@.take(0)));
        }
        while idx < self.speakers.len()
            invariant
                idx <= self.speakers@.len(),
                texts(out@) == speaker_lines(self.speakers@.take(idx as int)),
            decreases self.speakers@.len() - idx,
        {
            let ghost upto = self.speakers@.take(idx + 1);
            let ghost head = speaker_lines(self.speakers@.take(idx as int)).push(
                speaker_line(idx as int, self.speakers@[idx as int]),
            );
            proof {
                assert(upto.drop_last() =~= self.speakers@.take(idx as int));
                assert(upto.last() == self.speakers@[idx as int]);
            }
            let speaker = &self.speakers[idx];
            let mut line: String = decimal_string(idx as i128);
            line.append(": ");
            line.append(speaker.name.as_str());
            out.push(line);
            proof {
                assert(texts(out@) =~= head + style_lines(idx as int, speaker.styles@, 0));
            }
            let mut i: usize = 0;
            while i < speaker.styles.len()
                invariant
                    i <= speaker.styles@.len(),
                    texts(out@) == head + style_lines(idx as int, speaker.styles@, i as int),
                decreases speaker.styles@.len() - i,
            {
                let style = &speaker.styles[i];
                let mut line: String = String::from_str(" (");
                line.append(decimal_string(idx as i128).as_str());
                line.append(", ");
                line.append(decimal_string(i as i128).as_str());
                line.append("): Style { id: ");
                line.append(decimal_string(style.id as i128).as_str());
                line.append(", name: ");
                line.append(quoted_string(style.name.as_str()).as_str());
                line.append(" }");
                let ghost shown = texts(out@);
                let ghost text = line@;
                out.push(line);
                proof {
                    assert(text == style_line(idx as int, i as int, speaker.styles@[i as int]));
                    assert(texts(out@) =~= shown.push(text));
                    assert(style_lines(idx as int, speaker.styles@, i + 1) =~= style_lines(
                        idx as int,
                        speaker.styles@,
                        i as int,
                    ).push(text));
                    assert(texts(out@) =~= head + style_lines(
                        idx as int,
                        speaker.styles@,
                        i + 1,
                    ));
                }
                i = i + 1;
            }
            idx = idx + 1;
        }
        proof {
            assert(self.speakers@.take(self.speakers@.len() as int) =~= self.speakers@);
        }
        out
    }

    /// Describes a voice id. A known id gives `true` and the id with the
    /// names of its speaker and style; an unknown one gives `false` and the
    /// id with `UNKNOWN` twice, which is an answer and no failure.
    pub fn describe(&self, id: i32) -> (r: (bool, String))
        ensures
            r.0 == description(self.speakers(), id).0,
            r.1@ == description(self.speakers(), id).1,
    {
        let mut text: String = decimal_string(id as i128);
        match self.locate(id) {
            None => {
                text.append(" UNKNOWN UNKNOWN");
                (false, text)
            },
            Some((i, j)) => {
                text.append(" ");
                text.append(self.speakers[i].name.as_str());
                text.append(" ");
                text.append(self.speakers[i].styles[j].name.as_str());
                (true, text)
            },
        }
    }
}

} // verus!
