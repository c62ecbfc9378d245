//! Responses: the records that the API returns for each word, and their
//! decoding into word elements with their metadata.
use vstd::prelude::*;
use vstd::string::{StrSliceExecFns, StringExecFns};

use crate::text::{lemma_split_pair, lemma_split_single, same_text, split_at_char, split_on, strings_view};

verus! {

/// The parts of speech that the API reports.
#[derive(Clone, Copy, Debug, PartialEq, Eq, Structural)]
pub enum PartOfSpeech {
    /// A noun, coded `n`.
    Noun,
    /// An adjective, coded `adj`.
    Adjective,
    /// An adverb, coded `adv`.
    Adverb,
    /// A verb, coded `v`.
    Verb,
}

impl PartOfSpeech {
    /// The code of a part of speech in tags and definitions.
    pub open spec fn code(self) -> Seq<char> {
        match self {
            PartOfSpeech::Noun => "n"@,
            PartOfSpeech::Adjective => "adj"@,
            PartOfSpeech::Adverb => "adv"@,
            PartOfSpeech::Verb => "v"@,
        }
    }

    /// The part of speech with the given code, if any; other codes, such as `u`
    /// for an undefined one, have none.
    pub open spec fn from_code(code: Seq<char>) -> Option<PartOfSpeech> {
        if code == "n"@ {
            Some(PartOfSpeech::Noun)
        } else if code == "adj"@ {
            Some(PartOfSpeech::Adjective)
        } else if code == "adv"@ {
            Some(PartOfSpeech::Adverb)
        } else if code == "v"@ {
            Some(PartOfSpeech::Verb)
        } else {
            None
        }
    }

    /// The part of speech with the given code, if any.
    pub fn from_str(pos: &str) -> (r: Option<Self>)
        ensures
            r == Self::from_code(pos@),
    {
        if same_text(pos, "n") {
            Some(PartOfSpeech::Noun)
        } else if same_text(pos, "adj") {
            Some(PartOfSpeech::Adjective)
        } else if same_text(pos, "adv") {
            Some(PartOfSpeech::Adverb)
        } else if same_text(pos, "v") {
            Some(PartOfSpeech::Verb)
        } else {
            None
        }
    }
}

/// A record of the response as the API sends it: the word, its score, its
/// syllable count, its tags and its definitions.
#[derive(Debug, PartialEq)]
pub struct DatamuseWordObject {
    /// The word.
    pub word: String,
    /// Its score.
    pub score: usize,
    /// Its number of syllables.
    pub num_syllables: Option<usize>,
    /// Its tags, each `kind:value` or a part-of-speech code.
    pub tags: Option<Vec<String>>,
    /// Its definitions, each a part-of-speech code and a text separated by a tab.
    pub defs: Option<Vec<String>>,
}

/// A definition of a word.
#[derive(Debug, PartialEq)]
pub struct Definition {
    /// The part of speech that the definition is for.
    pub part_of_speech: Option<PartOfSpeech>,
    /// The definition itself.
    pub definition: String,
}

impl View for Definition {
    type V = (Option<PartOfSpeech>, Seq<char>);

    open spec fn view(&self) -> (Option<PartOfSpeech>, Seq<char>) {
        (self.part_of_speech, self.definition@)
    }
}

/// A word of the response with its metadata. Each optional field is absent
/// where the response gave nothing for it; a list that is present is not empty.
#[derive(Debug, PartialEq)]
pub struct WordElement {
    /// The word.
    pub word: String,
    /// How well the word fits the query; results come by falling score.
    pub score: usize,
    /// The number of syllables.
    pub num_syllables: Option<usize>,
    /// The parts of speech of the word.
    pub parts_of_speech: Option<Vec<PartOfSpeech>>,
    /// The pronunciation; an IPA one is preferred to an ARPABET one.
    pub pronunciation: Option<String>,
    /// The number of uses per million words of text, in the decimal notation
    /// of the response.
    pub frequency: Option<String>,
    /// The definitions.
    pub definitions: Option<Vec<Definition>>,
}

/// What a word element holds, with each text as its characters.
pub struct WordRecord {
    pub word: Seq<char>,
    pub score: usize,
    pub num_syllables: Option<usize>,
    pub parts_of_speech: Option<Seq<PartOfSpeech>>,
    pub pronunciation: Option<Seq<char>>,
    pub frequency: Option<Seq<char>>,
    pub definitions: Option<Seq<(Option<PartOfSpeech>, Seq<char>)>>,
}

/// The views of a list of definitions.
pub open spec fn definitions_view(defs: Seq<Definition>) -> Seq<(Option<PartOfSpeech>, Seq<char>)> {
    defs.map_values(|d: Definition| d@)
}

impl View for WordElement {
    type V = WordRecord;

    open spec fn view(&self) -> WordRecord {
        WordRecord {
            word: self.word@,
            score: self.score,
            num_syllables: self.num_syllables,
            parts_of_speech: match self.parts_of_speech {
                Some(p) => Some(p@),
                None => None,
            },
            pronunciation: match self.pronunciation {
                Some(p) => Some(p@),
                None => None,
            },
            frequency: match self.frequency {
                Some(f) => Some(f@),
                None => None,
            },
            definitions: match self.definitions {
                Some(d) => Some(definitions_view(d@)),
                None => None,
            },
        }
    }
}

/// What the tags of a record say: the parts of speech in order, the
/// pronunciation and the frequency.
pub struct TagSummary {
    pub parts_of_speech: Seq<PartOfSpeech>,
    pub pronunciation: Option<Seq<char>>,
    pub frequency: Option<Seq<char>>,
}

/// The summary of no tags.
pub open spec fn no_tags() -> TagSummary {
    TagSummary { parts_of_speech: Seq::empty(), pronunciation: None, frequency: None }
}

/// The summary after one more tag. A tag is split at colons. `f:x` sets the
/// frequency to `x`; `pron:x` sets the pronunciation to `x` unless one is set;
/// `ipa_pron:x` sets it whatever was set; a tag of one piece that is a
/// part-of-speech code adds that part of speech. Any other tag changes nothing.
pub open spec fn apply_tag(st: TagSummary, tag: Seq<char>) -> TagSummary {
    let parts = split_at_char(tag, ':');
    if parts.len() == 2 && parts[0] == "f"@ {
        TagSummary { frequency: Some(parts[1]), ..st }
    } else if parts.len() == 2 && parts[0] == "pron"@ {
        if st.pronunciation is None {
            TagSummary { pronunciation: Some(parts[1]), ..st }
        } else {
            st
        }
    } else if parts.len() == 2 && parts[0] == "ipa_pron"@ {
        TagSummary { pronunciation: Some(parts[1]), ..st }
    } else if parts.len() == 1 {
        match PartOfSpeech::from_code(parts[0]) {
            Some(p) => TagSummary { parts_of_speech: st.parts_of_speech.push(p), ..st },
            None => st,
        }
    } else {
        st
    }
}

/// The summary of a list of tags, read in order.
pub open spec fn decode_tags(tags: Seq<Seq<char>>) -> TagSummary
    decreases tags.len(),
{
    if tags.len() == 0 {
        no_tags()
    } else {
        apply_tag(decode_tags(tags.drop_last()), tags.last())
    }
}

/// A definition entry split at tabs: exactly two pieces give a definition, the
/// first a part-of-speech code that may name none.
pub open spec fn decode_definition(entry: Seq<char>) -> Option<(Option<PartOfSpeech>, Seq<char>)> {
    let parts = split_at_char(entry, '\t');
    if parts.len() == 2 {
        Some((PartOfSpeech::from_code(parts[0]), parts[1]))
    } else {
        None
    }
}

/// The definitions of a list of entries, in order, leaving out malformed ones.
pub open spec fn decode_definitions(entries: Seq<Seq<char>>) -> Seq<
    (Option<PartOfSpeech>, Seq<char>),
>
    decreases entries.len(),
{
    if entries.len() == 0 {
        Seq::empty()
    } else {
        let rest = decode_definitions(entries.drop_last());
        match decode_definition(entries.last()) {
            Some(d) => rest.push(d),
            None => rest,
        }
    }
}

/// A list, or nothing where it is empty.
pub open spec fn present<A>(s: Seq<A>) -> Option<Seq<A>> {
    if s.len() > 0 {
        Some(s)
    } else {
        None
    }
}

/// The word element that a record decodes to.
pub open spec fn decode_word(obj: DatamuseWordObject) -> WordRecord {
    let tags = match obj.tags {
        Some(t) => decode_tags(strings_view(t@)),
        None => no_tags(),
    };
    let defs = match obj.defs {
        Some(d) => decode_definitions(strings_view(d@)),
        None => Seq::empty(),
    };
    WordRecord {
        word: obj.word@,
        score: obj.score,
        num_syllables: obj.num_syllables,
        parts_of_speech: present(tags.parts_of_speech),
        pronunciation: tags.pronunciation,
        frequency: tags.frequency,
        definitions: present(defs),
    }
}

/// The view of an optional text.
pub open spec fn text_view(t: Option<String>) -> Option<Seq<char>> {
    match t {
        Some(s) => Some(s@),
        None => None,
    }
}

/// Reads the tags in order: the parts of speech, the pronunciation and the
/// frequency that they give.
fn read_tags(tags: &Vec<String>) -> (r: (Vec<PartOfSpeech>, Option<String>, Option<String>))
    ensures
        r.0@ == decode_tags(strings_view(tags@)).parts_of_speech,
        text_view(r.1) == decode_tags(strings_view(tags@)).pronunciation,
        text_view(r.2) == decode_tags(strings_view(tags@)).frequency,
{
    let ghost all = strings_view(tags@);
    let mut parts_of_speech: Vec<PartOfSpeech> = Vec::new();
    let mut pronunciation: Option<String> = None;
    let mut frequency: Option<String> = None;
    let mut i: usize = 0;
    while i < tags.len()
        invariant
            all == strings_view(tags@),
            i <= tags@.len(),
            parts_of_speech@ == decode_tags(all.take(i as int)).parts_of_speech,
            text_view(pronunciation) == decode_tags(all.take(i as int)).pronunciation,
            text_view(frequency) == decode_tags(all.take(i as int)).frequency,
        decreases tags@.len() - i,
    {
        let ghost st = decode_tags(all.take(i as int));
        assert(all.take(i + 1).drop_last() =~= all.take(i as int));
        assert(all.take(i + 1).last() == tags@[i as int]@);
        let parts = split_on(tags[i].as_str(), ':');
        let ghost pv = strings_view(parts@);
        assert(pv == split_at_char(tags@[i as int]@, ':'));
        proof {
            reveal_strlit("f");
            reveal_strlit("pron");
            reveal_strlit("ipa_pron");
        }
        let n = parts.len();
        if n == 2 && same_text(parts[0].as_str(), "f") {
            assert(pv[0] == parts@[0]@ && pv[1] == parts@[1]@);
            frequency = Some(parts[1].clone());
        } else if n == 2 && same_text(parts[0].as_str(), "pron") {
            assert(pv[0] == parts@[0]@ && pv[1] == parts@[1]@);
            if pronunciation.is_none() {
                pronunciation = Some(parts[1].clone());
            }
        } else if n == 2 && same_text(parts[0].as_str(), "ipa_pron") {
            assert(pv[0] == parts@[0]@ && pv[1] == parts@[1]@);
            pronunciation = Some(parts[1].clone());
        } else if n == 1 {
            assert(pv[0] == parts@[0]@);
            match PartOfSpeech::from_str(parts[0].as_str()) {
                Some(p) => {
                    parts_of_speech.push(p);
                },
                None => {},
            }
        } else {
            assert(n != 2 || (pv[0] != "f"@ && pv[0] != "pron"@ && pv[0] != "ipa_pron"@)) by {
                if n == 2 {
                    assert(pv[0] == parts@[0]@);
                }
            }
        }
        i = i + 1;
    }
    assert(all.take(i as int) =~= all);
    (parts_of_speech, pronunciation, frequency)
}

/// Reads the definition entries in order, leaving out malformed ones.
fn read_definitions(entries: &Vec<String>) -> (r: Vec<Definition>)
    ensures
        definitions_view(r@) == decode_definitions(strings_view(entries@)),
{
    let ghost all = strings_view(entries@);
    let mut defs: Vec<Definition> = Vec::new();
    let mut i: usize = 0;
    while i < entries.len()
        invariant
            all == strings_view(entries@),
            i <= entries@.len(),
            definitions_view(defs@) == decode_definitions(all.take(i as int)),
        decreases entries@.len() - i,
    {
        assert(all.take(i + 1).drop_last() =~= all.take(i as int));
        assert(all.take(i + 1).last() == entries@[i as int]@);
        let parts = split_on(entries[i].as_str(), '\t');
        let ghost pv = strings_view(parts@);
        if parts.len() == 2 {
            assert(pv[0] == parts@[0]@ && pv[1] == parts@[1]@);
            let d = Definition {
                part_of_speech: PartOfSpeech::from_str(parts[0].as_str()),
                definition: parts[1].clone(),
            };
            let ghost before = defs@;
            defs.push(d);
            assert(definitions_view(defs@) =~= definitions_view(before).push(d@));
        }
        i = i + 1;
    }
    assert(all.take(i as int) =~= all);
    defs
}

/// Decodes a record of the response into a word element.
pub fn decode_word_object(obj: &DatamuseWordObject) -> (r: WordElement)
    ensures
        r@ == decode_word(*obj),
{
    let (parts_of_speech, pronunciation, frequency) = match &obj.tags {
        Some(t) => read_tags(t),
        None => (Vec::new(), None, None),
    };
    let definitions = match &obj.defs {
        Some(d) => read_definitions(d),
        None => Vec::new(),
    };
    proof {
        if obj.tags is None {
            assert(parts_of_speech@ =~= Seq::<PartOfSpeech>::empty());
        }
        if obj.defs is None {
            assert(definitions_view(definitions@) =~= Seq::empty());
        }
    }
    let parts_of_speech = if parts_of_speech.len() > 0 {
        Some(parts_of_speech)
    } else {
        None
    };
    let definitions = if definitions.len() > 0 {
        Some(definitions)
    } else {
        None
    };
    WordElement {
        word: obj.word.clone(),
        score: obj.score,
        num_syllables: obj.num_syllables,
        parts_of_speech,
        pronunciation,
        frequency,
        definitions,
    }
}

/// Decodes a record of the response into a word element.
pub fn word_obj_to_word_elem(word_obj: DatamuseWordObject) -> (r: WordElement)
    ensures
        r@ == decode_word(word_obj),
{
    decode_word_object(&word_obj)
}

/// The records of a response, as the JSON decoder read them from its body.
#[derive(Debug)]
pub struct Response {
    words: Vec<DatamuseWordObject>,
}

impl View for Response {
    type V = Seq<DatamuseWordObject>;

    closed spec fn view(&self) -> Seq<DatamuseWordObject> {
        self.words@
    }
}

/// The views of a list of word elements.
pub open spec fn records_view(words: Seq<WordElement>) -> Seq<WordRecord> {
    words.map_values(|w: WordElement| w@)
}

impl Response {
    /// A response with the given records.
    pub fn new(words: Vec<DatamuseWordObject>) -> (r: Response)
        ensures
            r@ == words@,
    {
        Response { words }
    }

    /// The word elements that the records decode to, in order.
    pub open spec fn listed(&self) -> Seq<WordRecord> {
        self@.map_values(|o: DatamuseWordObject| decode_word(o))
    }

    /// Decodes the records into word elements, in order.
    pub fn list(&self) -> (r: Vec<WordElement>)
        ensures
            records_view(r@) == self.listed(),
    {
        let mut out: Vec<WordElement> = Vec::new();
        let mut i: usize = 0;
        while i < self.words.len()
            invariant
                i <= self@.len(),
                self@ == self.words@,
                records_view(out@) == self.listed().take(i as int),
            decreases self@.len() - i,
        {
            let w = decode_word_object(&self.words[i]);
            let ghost before = out@;
            out.push(w);
            assert(records_view(out@) =~= records_view(before).push(w@));
            assert(self.listed().take(i + 1) =~= self.listed().take(i as int).push(
                decode_word(self@[i as int]),
            ));
            i = i + 1;
        }
        assert(self.listed().take(i as int) =~= self.listed());
        out
    }
}

/// Listing a response depends on nothing but the response: two lists of one
/// response hold the same word elements.
pub proof fn list_is_idempotent(resp: &Response, first: Seq<WordElement>, second: Seq<WordElement>)
    requires
        records_view(first) == resp.listed(),
        records_view(second) == resp.listed(),
    ensures
        records_view(first) == records_view(second),
{
}

/// A tag of the given kind with the given value.
pub open spec fn tagged(kind: Seq<char>, value: Seq<char>) -> Seq<char> {
    kind.push(':') + value
}

/// The tags that carry parts of speech, a pronunciation and a frequency: the
/// code of each part of speech, then the pronunciation under `ipa_pron` or
/// `pron`, then the frequency under `f`.
pub open spec fn encode_tags(
    parts_of_speech: Seq<PartOfSpeech>,
    pronunciation: Option<Seq<char>>,
    ipa: bool,
    frequency: Option<Seq<char>>,
) -> Seq<Seq<char>> {
    let codes = parts_of_speech.map_values(|p: PartOfSpeech| p.code());
    let with_pronunciation = match pronunciation {
        Some(p) => codes.push(
            tagged(
                if ipa {
                    "ipa_pron"@
                } else {
                    "pron"@
                },
                p,
            ),
        ),
        None => codes,
    };
    match frequency {
        Some(f) => with_pronunciation.push(tagged("f"@, f)),
        None => with_pronunciation,
    }
}

/// Whether a tag sets the pronunciation in the International Phonetic Alphabet.
pub open spec fn is_ipa_tag(tag: Seq<char>) -> bool {
    split_at_char(tag, ':').len() == 2 && split_at_char(tag, ':')[0] == "ipa_pron"@
}

/// Text of at most eight characters with no colon among them.
proof fn lemma_colon_free(s: Seq<char>)
    requires
        s.len() <= 8,
        s.len() > 0 ==> s[0] != ':',
        s.len() > 1 ==> s[1] != ':',
        s.len() > 2 ==> s[2] != ':',
        s.len() > 3 ==> s[3] != ':',
        s.len() > 4 ==> s[4] != ':',
        s.len() > 5 ==> s[5] != ':',
        s.len() > 6 ==> s[6] != ':',
        s.len() > 7 ==> s[7] != ':',
    ensures
        !s.contains(':'),
{
    assert forall|k: int| 0 <= k < s.len() implies s[k] != ':' by {
        if k == 0 {
        } else if k == 1 {
        } else if k == 2 {
        } else if k == 3 {
        } else if k == 4 {
        } else if k == 5 {
        } else if k == 6 {
        } else {
        }
    }
}

/// What the tags' kinds and the part-of-speech codes are: words without colons,
/// each code naming its part of speech, and the kinds all different.
proof fn lemma_tag_words()
    ensures
        forall|p: PartOfSpeech| #![auto] !p.code().contains(':'),
        forall|p: PartOfSpeech| #![auto] PartOfSpeech::from_code(p.code()) == Some(p),
        !"f"@.contains(':'),
        !"pron"@.contains(':'),
        !"ipa_pron"@.contains(':'),
        "pron"@ != "f"@,
        "ipa_pron"@ != "f"@,
        "ipa_pron"@ != "pron"@,
{
    reveal_strlit("n");
    reveal_strlit("adj");
    reveal_strlit("adv");
    reveal_strlit("v");
    reveal_strlit("f");
    reveal_strlit("pron");
    reveal_strlit("ipa_pron");
    lemma_colon_free("n"@);
    lemma_colon_free("adj"@);
    lemma_colon_free("adv"@);
    lemma_colon_free("v"@);
    lemma_colon_free("f"@);
    lemma_colon_free("pron"@);
    lemma_colon_free("ipa_pron"@);
    assert("adj"@.len() != "n"@.len() && "adv"@.len() != "n"@.len());
    assert("v"@[0] != "n"@[0]);
    assert("adv"@[2] != "adj"@[2]);
    assert("v"@.len() != "adj"@.len() && "v"@.len() != "adv"@.len());
    assert("pron"@ != "f"@ && "ipa_pron"@ != "f"@ && "ipa_pron"@ != "pron"@);
}

/// Reading one more tag after some tags is reading the longer list.
proof fn lemma_decode_push(tags: Seq<Seq<char>>, tag: Seq<char>)
    ensures
        decode_tags(tags.push(tag)) == apply_tag(decode_tags(tags), tag),
{
    assert(tags.push(tag).drop_last() =~= tags);
}

/// The codes of parts of speech read back as those parts of speech.
proof fn lemma_decode_codes(parts_of_speech: Seq<PartOfSpeech>)
    ensures
        decode_tags(parts_of_speech.map_values(|p: PartOfSpeech| p.code())) == (TagSummary {
            parts_of_speech,
            pronunciation: None,
            frequency: None,
        }),
    decreases parts_of_speech.len(),
{
    let codes = parts_of_speech.map_values(|p: PartOfSpeech| p.code());
    if parts_of_speech.len() == 0 {
        assert(codes =~= Seq::<Seq<char>>::empty());
        assert(parts_of_speech =~= Seq::<PartOfSpeech>::empty());
    } else {
        let init = parts_of_speech.drop_last();
        let p = parts_of_speech.last();
        lemma_decode_codes(init);
        assert(codes =~= init.map_values(|p: PartOfSpeech| p.code()).push(p.code()));
        lemma_decode_push(init.map_values(|p: PartOfSpeech| p.code()), p.code());
        lemma_tag_words();
        lemma_split_single(p.code(), ':');
        assert(PartOfSpeech::from_code(p.code()) == Some(p));
        assert(init.push(p) =~= parts_of_speech);
    }
}

/// Tags written from parts of speech, a pronunciation in either format and a
/// frequency read back as the same parts of speech, pronunciation and frequency.
pub proof fn tags_round_trip(
    parts_of_speech: Seq<PartOfSpeech>,
    pronunciation: Option<Seq<char>>,
    ipa: bool,
    frequency: Option<Seq<char>>,
)
    requires
        pronunciation matches Some(p) ==> !p.contains(':'),
        frequency matches Some(f) ==> !f.contains(':'),
    ensures
        decode_tags(encode_tags(parts_of_speech, pronunciation, ipa, frequency)) == (TagSummary {
            parts_of_speech,
            pronunciation,
            frequency,
        }),
{
    lemma_tag_words();
    let codes = parts_of_speech.map_values(|p: PartOfSpeech| p.code());
    lemma_decode_codes(parts_of_speech);
    let kind: Seq<char> = if ipa {
        "ipa_pron"@
    } else {
        "pron"@
    };
    let with_pronunciation = match pronunciation {
        Some(p) => codes.push(tagged(kind, p)),
        None => codes,
    };
    if let Some(p) = pronunciation {
        lemma_split_pair(kind, p, ':');
        lemma_decode_push(codes, tagged(kind, p));
    }
    if let Some(f) = frequency {
        lemma_split_pair("f"@, f, ':');
        lemma_decode_push(with_pronunciation, tagged("f"@, f));
    }
}

/// A pronunciation in the International Phonetic Alphabet is the one kept,
/// whatever ARPABET pronunciations come before or after it, as long as no other
/// such tag follows it.
pub proof fn ipa_pronunciation_wins(tags: Seq<Seq<char>>, i: int, ipa: Seq<char>)
    requires
        0 <= i < tags.len(),
        tags[i] == tagged("ipa_pron"@, ipa),
        !ipa.contains(':'),
        forall|j: int| i < j < tags.len() ==> !is_ipa_tag(#[trigger] tags[j]),
    ensures
        decode_tags(tags).pronunciation == Some(ipa),
    decreases tags.len(),
{
    lemma_tag_words();
    let init = tags.drop_last();
    let last = tags.last();
    assert(init.push(last) =~= tags);
    lemma_decode_push(init, last);
    if i == tags.len() - 1 {
        lemma_split_pair("ipa_pron"@, ipa, ':');
    } else {
        assert forall|j: int| i < j < init.len() implies !is_ipa_tag(#[trigger] init[j]) by {
            assert(init[j] == tags[j]);
        }
        ipa_pronunciation_wins(init, i, ipa);
        assert(!is_ipa_tag(tags[tags.len() - 1]));
    }
}

} // verus!
