//! Requests: the parameters of a query, the rules on which of them an endpoint
//! and a vocabulary accept, and the builder that turns them into query pairs.
use vstd::prelude::*;
use vstd::string::StringExecFns;

use crate::text::{join_commas, push_decimal, decimal, strings_view};
use crate::Error;

verus! {

/// The endpoints of the API: "words" answers queries on a set of parameters,
/// "suggest" completes a hint string.
#[derive(Clone, Copy, Debug, PartialEq, Eq, Structural)]
pub enum EndPoint {
    /// The "words" endpoint, at the path `words`.
    Words,
    /// The "suggest" endpoint, at the path `sug`.
    Suggest,
}

/// The word lists that a request can draw from.
#[derive(Clone, Copy, Debug, PartialEq, Eq, Structural)]
pub enum Vocabulary {
    /// The default English list.
    English,
    /// The Spanish list.
    Spanish,
    /// The larger English list drawn from Wikipedia.
    EnglishWiki,
}

/// The relations that a `Related` parameter can ask for.
#[derive(Clone, Copy, Debug, PartialEq, Eq, Structural)]
pub enum RelatedType {
    /// Nouns typically modified by the given adjective.
    NounModifiedBy,
    /// Adjectives typically modifying the given noun.
    AdjectiveModifier,
    /// Synonyms.
    Synonym,
    /// Words associated with the given word.
    Trigger,
    /// Antonyms.
    Antonym,
    /// The kinds of which the given word is a more specific one.
    KindOf,
    /// More specific kinds of the given category.
    MoreGeneral,
    /// Things of which the given word is comprised.
    Comprises,
    /// Things of which the given word is a part.
    PartOf,
    /// Words typically found after the given word.
    Follower,
    /// Words typically found before the given word.
    Predecessor,
    /// Rhymes.
    Rhyme,
    /// Near rhymes.
    ApproximateRhyme,
    /// Homophones.
    Homophones,
    /// Words with the same consonants and other vowels.
    ConsonantMatch,
}

/// The metadata that can be asked for with each word.
#[derive(Clone, Copy, Debug, PartialEq, Eq, Structural)]
pub enum MetaDataFlag {
    /// Definitions.
    Definitions,
    /// Parts of speech.
    PartsOfSpeech,
    /// Syllable counts.
    SyllableCount,
    /// Pronunciations, in the given format.
    Pronunciation(PronunciationFormat),
    /// Frequencies in written text.
    WordFrequency,
}

/// The formats of a pronunciation.
#[derive(Clone, Copy, Debug, PartialEq, Eq, Structural)]
pub enum PronunciationFormat {
    /// ARPABET.
    Arpabet,
    /// The International Phonetic Alphabet.
    Ipa,
}

impl EndPoint {
    /// The path of the endpoint under the API's root.
    pub open spec fn path(self) -> Seq<char> {
        match self {
            EndPoint::Words => "words"@,
            EndPoint::Suggest => "sug"@,
        }
    }

    /// The path of the endpoint under the API's root.
    pub fn get_string(&self) -> (r: String)
        ensures
            r@ == self.path(),
    {
        match self {
            EndPoint::Words => String::from_str("words"),
            EndPoint::Suggest => String::from_str("sug"),
        }
    }
}

impl Vocabulary {
    /// The query pair that selects the vocabulary; the default list has none.
    pub open spec fn query_pair(self) -> Option<(Seq<char>, Seq<char>)> {
        match self {
            Vocabulary::English => None,
            Vocabulary::Spanish => Some(("v"@, "es"@)),
            Vocabulary::EnglishWiki => Some(("v"@, "enwiki"@)),
        }
    }

    /// The query pair that selects the vocabulary, if it needs one.
    pub fn build(&self) -> (r: Option<(String, String)>)
        ensures
            r matches Some(p) ==> self.query_pair() == Some((p.0@, p.1@)),
            r is None <==> self.query_pair() is None,
    {
        match self {
            Vocabulary::Spanish => Some((String::from_str("v"), String::from_str("es"))),
            Vocabulary::EnglishWiki => Some((String::from_str("v"), String::from_str("enwiki"))),
            Vocabulary::English => None,
        }
    }
}

impl RelatedType {
    /// The three-letter code of the relation.
    pub open spec fn code(self) -> Seq<char> {
        match self {
            RelatedType::NounModifiedBy => "jja"@,
            RelatedType::AdjectiveModifier => "jjb"@,
            RelatedType::Synonym => "syn"@,
            RelatedType::Trigger => "trg"@,
            RelatedType::Antonym => "ant"@,
            RelatedType::KindOf => "spc"@,
            RelatedType::MoreGeneral => "gen"@,
            RelatedType::Comprises => "com"@,
            RelatedType::PartOf => "par"@,
            RelatedType::Follower => "bga"@,
            RelatedType::Predecessor => "bgb"@,
            RelatedType::Rhyme => "rhy"@,
            RelatedType::ApproximateRhyme => "nry"@,
            RelatedType::Homophones => "hom"@,
            RelatedType::ConsonantMatch => "cns"@,
        }
    }
}

impl MetaDataFlag {
    /// The letter of the flag in the `md` query value.
    pub open spec fn letter(self) -> char {
        match self {
            MetaDataFlag::Definitions => 'd',
            MetaDataFlag::PartsOfSpeech => 'p',
            MetaDataFlag::SyllableCount => 's',
            MetaDataFlag::Pronunciation(_) => 'r',
            MetaDataFlag::WordFrequency => 'f',
        }
    }

    /// The letter of the flag in the `md` query value.
    pub fn get_letter_identifier(&self) -> (r: char)
        ensures
            r == self.letter(),
    {
        match self {
            MetaDataFlag::Definitions => 'd',
            MetaDataFlag::PartsOfSpeech => 'p',
            MetaDataFlag::SyllableCount => 's',
            MetaDataFlag::Pronunciation(_) => 'r',
            MetaDataFlag::WordFrequency => 'f',
        }
    }

    /// The letter of the flag, as a text of one character.
    fn letter_text(&self) -> (r: &'static str)
        ensures
            r@ == seq![self.letter()],
    {
        proof {
            reveal_strlit("d");
            reveal_strlit("p");
            reveal_strlit("s");
            reveal_strlit("r");
            reveal_strlit("f");
        }
        let r = match self {
            MetaDataFlag::Definitions => "d",
            MetaDataFlag::PartsOfSpeech => "p",
            MetaDataFlag::SyllableCount => "s",
            MetaDataFlag::Pronunciation(_) => "r",
            MetaDataFlag::WordFrequency => "f",
        };
        assert(r@ =~= seq![self.letter()]);
        r
    }
}

/// The letters of a list of flags, in order.
pub open spec fn flag_letters(flags: Seq<MetaDataFlag>) -> Seq<char> {
    flags.map_values(|f: MetaDataFlag| f.letter())
}

/// A relation together with the word it is taken of.
#[derive(Clone, Debug)]
pub struct RelatedTypeHolder {
    /// The relation.
    pub related_type: RelatedType,
    /// The word.
    pub value: String,
}

impl RelatedTypeHolder {
    /// The three-letter code of the relation.
    pub fn get_type_identifier(&self) -> (r: String)
        ensures
            r@ == self.related_type.code(),
    {
        match self.related_type {
            RelatedType::NounModifiedBy => String::from_str("jja"),
            RelatedType::AdjectiveModifier => String::from_str("jjb"),
            RelatedType::Synonym => String::from_str("syn"),
            RelatedType::Trigger => String::from_str("trg"),
            RelatedType::Antonym => String::from_str("ant"),
            RelatedType::KindOf => String::from_str("spc"),
            RelatedType::MoreGeneral => String::from_str("gen"),
            RelatedType::Comprises => String::from_str("com"),
            RelatedType::PartOf => String::from_str("par"),
            RelatedType::Follower => String::from_str("bga"),
            RelatedType::Predecessor => String::from_str("bgb"),
            RelatedType::Rhyme => String::from_str("rhy"),
            RelatedType::ApproximateRhyme => String::from_str("nry"),
            RelatedType::Homophones => String::from_str("hom"),
            RelatedType::ConsonantMatch => String::from_str("cns"),
        }
    }

    /// The word that the relation is taken of.
    pub fn get_word(&self) -> (r: String)
        ensures
            r@ == self.value@,
    {
        self.value.clone()
    }
}

/// One parameter of a query.
#[derive(Clone, Debug)]
pub enum Parameter {
    /// Words with a meaning like the given word (`ml`).
    MeansLike(String),
    /// Words that sound like the given word (`sl`).
    SoundsLike(String),
    /// Words spelled like the given pattern (`sp`).
    SpelledLike(String),
    /// Words in a relation to the given word (`rel_` and the relation's code).
    Related(RelatedTypeHolder),
    /// Words on the given topics (`topics`).
    Topics(Vec<String>),
    /// The word just before the words sought (`lc`).
    LeftContext(String),
    /// The word just after the words sought (`rc`).
    RightContext(String),
    /// The largest number of results (`max`).
    MaxResults(u16),
    /// The metadata asked for with each word (`md`).
    MetaData(Vec<MetaDataFlag>),
    /// The text that the suggest endpoint completes (`s`).
    HintString(String),
}

/// What a parameter holds, with each text as its characters.
pub enum ParamModel {
    MeansLike(Seq<char>),
    SoundsLike(Seq<char>),
    SpelledLike(Seq<char>),
    Related(RelatedType, Seq<char>),
    Topics(Seq<Seq<char>>),
    LeftContext(Seq<char>),
    RightContext(Seq<char>),
    MaxResults(u16),
    MetaData(Seq<MetaDataFlag>),
    HintString(Seq<char>),
}

/// Why a parameter is refused: the vocabulary or endpoint that refuses it, and
/// the parameter's kind.
pub enum Rejection {
    Vocabulary(Seq<char>, Seq<char>),
    EndPoint(Seq<char>, Seq<char>),
}

impl View for Parameter {
    type V = ParamModel;

    open spec fn view(&self) -> ParamModel {
        match self {
            Parameter::MeansLike(w) => ParamModel::MeansLike(w@),
            Parameter::SoundsLike(w) => ParamModel::SoundsLike(w@),
            Parameter::SpelledLike(w) => ParamModel::SpelledLike(w@),
            Parameter::Related(h) => ParamModel::Related(h.related_type, h.value@),
            Parameter::Topics(ts) => ParamModel::Topics(strings_view(ts@)),
            Parameter::LeftContext(w) => ParamModel::LeftContext(w@),
            Parameter::RightContext(w) => ParamModel::RightContext(w@),
            Parameter::MaxResults(n) => ParamModel::MaxResults(*n),
            Parameter::MetaData(fs) => ParamModel::MetaData(fs@),
            Parameter::HintString(h) => ParamModel::HintString(h@),
        }
    }
}

/// The topics that a query sends: the first five.
pub open spec fn first_five(topics: Seq<Seq<char>>) -> Seq<Seq<char>> {
    if topics.len() > 5 {
        topics.take(5)
    } else {
        topics
    }
}

impl ParamModel {
    /// The name of the parameter's kind, as errors report it.
    pub open spec fn kind_name(self) -> Seq<char> {
        match self {
            ParamModel::MeansLike(_) => "MeansLike"@,
            ParamModel::SoundsLike(_) => "SoundsLike"@,
            ParamModel::SpelledLike(_) => "SpelledLike"@,
            ParamModel::Related(_, _) => "Related"@,
            ParamModel::Topics(_) => "Topic"@,
            ParamModel::LeftContext(_) => "LeftContext"@,
            ParamModel::RightContext(_) => "RightContext"@,
            ParamModel::MaxResults(_) => "MaxResults"@,
            ParamModel::MetaData(_) => "MetaData"@,
            ParamModel::HintString(_) => "HintString"@,
        }
    }

    /// The query pair of the parameter.
    pub open spec fn key_value(self) -> (Seq<char>, Seq<char>) {
        match self {
            ParamModel::MeansLike(w) => ("ml"@, w),
            ParamModel::SoundsLike(w) => ("sl"@, w),
            ParamModel::SpelledLike(w) => ("sp"@, w),
            ParamModel::Related(t, w) => ("rel_"@ + t.code(), w),
            ParamModel::Topics(ts) => ("topics"@, join_commas(first_five(ts))),
            ParamModel::LeftContext(w) => ("lc"@, w),
            ParamModel::RightContext(w) => ("rc"@, w),
            ParamModel::MaxResults(n) => ("max"@, decimal(n as nat)),
            ParamModel::MetaData(fs) => ("md"@, flag_letters(fs)),
            ParamModel::HintString(h) => ("s"@, h),
        }
    }

    /// Why the vocabulary or the endpoint refuses the parameter, if one does.
    /// A relation is refused under the Spanish vocabulary; a hint string on the
    /// words endpoint; anything but a result bound or a hint string on the
    /// suggest endpoint. The checks are made in that order.
    pub open spec fn rejection(self, vocabulary: Vocabulary, endpoint: EndPoint) -> Option<
        Rejection,
    > {
        if self is Related && vocabulary == Vocabulary::Spanish {
            Some(Rejection::Vocabulary("Spanish"@, "Related"@))
        } else if endpoint == EndPoint::Words && self is HintString {
            Some(Rejection::EndPoint("Words"@, "HintString"@))
        } else if endpoint == EndPoint::Suggest && !(self is MaxResults || self is HintString) {
            Some(Rejection::EndPoint("Suggest"@, self.kind_name()))
        } else {
            None
        }
    }
}

/// The views of a list of query pairs.
pub open spec fn pairs_view(pairs: Seq<(String, String)>) -> Seq<(Seq<char>, Seq<char>)> {
    pairs.map_values(|p: (String, String)| (p.0@, p.1@))
}

impl Parameter {
    /// The name of the parameter's kind, as errors report it.
    pub fn kind_name(&self) -> (r: String)
        ensures
            r@ == self@.kind_name(),
    {
        match self {
            Parameter::MeansLike(_) => String::from_str("MeansLike"),
            Parameter::SoundsLike(_) => String::from_str("SoundsLike"),
            Parameter::SpelledLike(_) => String::from_str("SpelledLike"),
            Parameter::Related(_) => String::from_str("Related"),
            Parameter::Topics(_) => String::from_str("Topic"),
            Parameter::LeftContext(_) => String::from_str("LeftContext"),
            Parameter::RightContext(_) => String::from_str("RightContext"),
            Parameter::MaxResults(_) => String::from_str("MaxResults"),
            Parameter::MetaData(_) => String::from_str("MetaData"),
            Parameter::HintString(_) => String::from_str("HintString"),
        }
    }

    /// Checks the parameter against the vocabulary and the endpoint, then gives
    /// its query pair.
    pub fn build(&self, vocab: &Vocabulary, endpoint: &EndPoint) -> (r: Result<
        (String, String),
        Error,
    >)
        ensures
            r is Err <==> self@.rejection(*vocab, *endpoint) is Some,
            r matches Ok(p) ==> (p.0@, p.1@) == self@.key_value(),
            r matches Err(e) ==> e.rejection() == self@.rejection(*vocab, *endpoint),
    {
        if let Parameter::Related(_) = self {
            if let Vocabulary::Spanish = vocab {
                return Err(
                    Error::VocabularyError((String::from_str("Spanish"), String::from_str("Related"))),
                );
            }
        }
        if let EndPoint::Words = endpoint {
            if let Parameter::HintString(_) = self {
                return Err(
                    Error::EndPointError((String::from_str("Words"), String::from_str("HintString"))),
                );
            }
        }
        if let EndPoint::Suggest = endpoint {
            match self {
                Parameter::MaxResults(_) => {},
                Parameter::HintString(_) => {},
                _ => {
                    return Err(Error::EndPointError((String::from_str("Suggest"), self.kind_name())));
                },
            }
        }
        let pair = match self {
            Parameter::MeansLike(w) => (String::from_str("ml"), w.clone()),
            Parameter::SoundsLike(w) => (String::from_str("sl"), w.clone()),
            Parameter::SpelledLike(w) => (String::from_str("sp"), w.clone()),
            Parameter::Related(h) => {
                let key = String::from_str("rel_").concat(h.get_type_identifier().as_str());
                (key, h.get_word())
            },
            Parameter::Topics(ts) => (String::from_str("topics"), join_topics(ts)),
            Parameter::LeftContext(w) => (String::from_str("lc"), w.clone()),
            Parameter::RightContext(w) => (String::from_str("rc"), w.clone()),
            Parameter::MaxResults(n) => {
                let mut digits = String::new();
                push_decimal(&mut digits, *n);
                assert(digits@ =~= decimal(*n as nat));
                (String::from_str("max"), digits)
            },
            Parameter::MetaData(fs) => (String::from_str("md"), join_letters(fs)),
            Parameter::HintString(h) => (String::from_str("s"), h.clone()),
        };
        Ok(pair)
    }
}

/// The first five topics, joined with commas.
fn join_topics(topics: &Vec<String>) -> (r: String)
    ensures
        r@ == join_commas(first_five(strings_view(topics@))),
{
    let len: usize = if topics.len() > 5 {
        5
    } else {
        topics.len()
    };
    let ghost sent = first_five(strings_view(topics@));
    assert(sent.len() == len);
    let mut joined = String::new();
    let mut i: usize = 0;
    while i < len
        invariant
            len <= topics@.len(),
            sent == first_five(strings_view(topics@)),
            sent.len() == len,
            i <= len,
            forall|j: int| 0 <= j < len ==> sent[j] == topics@[j]@,
            joined@ == join_commas(sent.take(i as int)),
        decreases len - i,
    {
        assert(sent.take(i + 1).drop_last() =~= sent.take(i as int));
        if i > 0 {
            joined.append(",");
            proof {
                reveal_strlit(",");
            }
        }
        joined.append(topics[i].as_str());
        proof {
            if i > 0 {
                assert(joined@ =~= join_commas(sent.take(i as int)).push(',') + topics@[i as int]@);
            } else {
                assert(joined@ =~= join_commas(sent.take(1)));
            }
        }
        i = i + 1;
    }
    assert(sent.take(len as int) =~= sent);
    joined
}

/// The letters of the flags, in order.
fn join_letters(flags: &Vec<MetaDataFlag>) -> (r: String)
    ensures
        r@ == flag_letters(flags@),
{
    let mut letters = String::new();
    let mut i: usize = 0;
    while i < flags.len()
        invariant
            i <= flags@.len(),
            letters@ == flag_letters(flags@.take(i as int)),
        decreases flags@.len() - i,
    {
        letters.append(flags[i].letter_text());
        assert(flag_letters(flags@.take(i + 1)) =~= flag_letters(flags@.take(i as int)).push(
            flags@[i as int].letter(),
        ));
        i = i + 1;
    }
    assert(flags@.take(flags@.len() as int) =~= flags@);
    letters
}

impl Parameter {
    /// A parameter with the same contents.
    pub fn copy_of(&self) -> (r: Parameter)
        ensures
            r@ == self@,
    {
        match self {
            Parameter::MeansLike(w) => Parameter::MeansLike(w.clone()),
            Parameter::SoundsLike(w) => Parameter::SoundsLike(w.clone()),
            Parameter::SpelledLike(w) => Parameter::SpelledLike(w.clone()),
            Parameter::Related(h) => Parameter::Related(
                RelatedTypeHolder { related_type: h.related_type, value: h.value.clone() },
            ),
            Parameter::Topics(ts) => Parameter::Topics(copy_strings(ts)),
            Parameter::LeftContext(w) => Parameter::LeftContext(w.clone()),
            Parameter::RightContext(w) => Parameter::RightContext(w.clone()),
            Parameter::MaxResults(n) => Parameter::MaxResults(*n),
            Parameter::MetaData(fs) => Parameter::MetaData(copy_flags(fs)),
            Parameter::HintString(h) => Parameter::HintString(h.clone()),
        }
    }
}

/// A vector of strings with the same contents.
fn copy_strings(v: &Vec<String>) -> (r: Vec<String>)
    ensures
        strings_view(r@) == strings_view(v@),
{
    let mut r: Vec<String> = Vec::new();
    let mut i: usize = 0;
    while i < v.len()
        invariant
            i <= v@.len(),
            strings_view(r@) == strings_view(v@.take(i as int)),
        decreases v@.len() - i,
    {
        let ghost before = r@;
        let c = v[i].clone();
        r.push(c);
        assert(strings_view(r@) =~= strings_view(before).push(c@));
        assert(strings_view(v@.take(i + 1)) =~= strings_view(v@.take(i as int)).push(v@[i as int]@));
        i = i + 1;
    }
    assert(v@.take(v@.len() as int) =~= v@);
    r
}

/// A vector of flags with the same contents.
fn copy_flags(v: &Vec<MetaDataFlag>) -> (r: Vec<MetaDataFlag>)
    ensures
        r@ == v@,
{
    let mut r: Vec<MetaDataFlag> = Vec::new();
    let mut i: usize = 0;
    while i < v.len()
        invariant
            i <= v@.len(),
            r@ == v@.take(i as int),
        decreases v@.len() - i,
    {
        r.push(v[i]);
        assert(r@ =~= v@.take(i + 1));
        i = i + 1;
    }
    assert(v@.take(v@.len() as int) =~= v@);
    r
}

/// Whether the flags ask for pronunciations in the International Phonetic Alphabet.
pub open spec fn asks_ipa(flags: Seq<MetaDataFlag>) -> bool {
    exists|i: int|
        0 <= i < flags.len() && flags[i] == MetaDataFlag::Pronunciation(PronunciationFormat::Ipa)
}

/// Whether the flags ask for pronunciations in the International Phonetic Alphabet.
fn has_ipa(flags: &Vec<MetaDataFlag>) -> (r: bool)
    ensures
        r == asks_ipa(flags@),
{
    let mut i: usize = 0;
    while i < flags.len()
        invariant
            i <= flags@.len(),
            forall|j: int|
                0 <= j < i ==> flags@[j] != MetaDataFlag::Pronunciation(PronunciationFormat::Ipa),
        decreases flags@.len() - i,
    {
        if flags[i] == MetaDataFlag::Pronunciation(PronunciationFormat::Ipa) {
            return true;
        }
        i = i + 1;
    }
    false
}

/// The first refusal among parameters checked in order, if any.
pub open spec fn first_rejection(
    params: Seq<ParamModel>,
    vocabulary: Vocabulary,
    endpoint: EndPoint,
) -> Option<Rejection>
    decreases params.len(),
{
    if params.len() == 0 {
        None
    } else if params[0].rejection(vocabulary, endpoint) is Some {
        params[0].rejection(vocabulary, endpoint)
    } else {
        first_rejection(params.drop_first(), vocabulary, endpoint)
    }
}

/// Parameters that are all accepted can be passed over when looking for the first refusal.
pub proof fn lemma_first_rejection_skip(
    params: Seq<ParamModel>,
    vocabulary: Vocabulary,
    endpoint: EndPoint,
    k: int,
)
    requires
        0 <= k <= params.len(),
        forall|j: int| 0 <= j < k ==> params[j].rejection(vocabulary, endpoint) is None,
    ensures
        first_rejection(params, vocabulary, endpoint) == first_rejection(
            params.subrange(k, params.len() as int),
            vocabulary,
            endpoint,
        ),
    decreases k,
{
    if k == 0 {
        assert(params.subrange(0, params.len() as int) =~= params);
    } else {
        let rest = params.drop_first();
        lemma_first_rejection_skip(rest, vocabulary, endpoint, k - 1);
        assert(rest.subrange(k - 1, rest.len() as int) =~= params.subrange(k, params.len() as int));
    }
}

/// What a request builder holds: its endpoint and vocabulary, the parameters
/// added in order, the topics, and the metadata flags.
pub struct BuilderModel {
    pub endpoint: EndPoint,
    pub vocabulary: Vocabulary,
    pub parameters: Seq<ParamModel>,
    pub topics: Seq<Seq<char>>,
    pub flags: Seq<MetaDataFlag>,
}

impl BuilderModel {
    /// The builder with one more parameter.
    pub open spec fn with_parameter(self, p: ParamModel) -> BuilderModel {
        BuilderModel { parameters: self.parameters.push(p), ..self }
    }

    /// The parameters that are checked and sent, in order: those added, then
    /// the topics if there are any, then the metadata flags if there are any.
    pub open spec fn all_params(self) -> Seq<ParamModel> {
        let with_topics = if self.topics.len() > 0 {
            self.parameters.push(ParamModel::Topics(self.topics))
        } else {
            self.parameters
        };
        if self.flags.len() > 0 {
            with_topics.push(ParamModel::MetaData(self.flags))
        } else {
            with_topics
        }
    }

    /// The pairs that come before the parameters: `ipa=1` when a flag asks for
    /// the International Phonetic Alphabet, then the vocabulary's pair.
    pub open spec fn leading_pairs(self) -> Seq<(Seq<char>, Seq<char>)> {
        let ipa: Seq<(Seq<char>, Seq<char>)> = if asks_ipa(self.flags) {
            seq![("ipa"@, "1"@)]
        } else {
            Seq::empty()
        };
        match self.vocabulary.query_pair() {
            Some(p) => ipa.push(p),
            None => ipa,
        }
    }

    /// The query pairs of an accepted builder, in order.
    pub open spec fn query_pairs(self) -> Seq<(Seq<char>, Seq<char>)> {
        self.leading_pairs() + self.all_params().map_values(|p: ParamModel| p.key_value())
    }

    /// Why the builder is refused, if it is: the first refused parameter.
    pub open spec fn rejection(self) -> Option<Rejection> {
        first_rejection(self.all_params(), self.vocabulary, self.endpoint)
    }
}

/// Accumulates the parameters of a request. Each setter adds to what is there;
/// `build` checks and serialises them, and can be called any number of times.
#[derive(Debug)]
pub struct RequestBuilder {
    endpoint: EndPoint,
    vocabulary: Vocabulary,
    parameters: Vec<Parameter>,
    topics: Vec<String>,
    meta_data_flags: Vec<MetaDataFlag>,
}

impl View for RequestBuilder {
    type V = BuilderModel;

    closed spec fn view(&self) -> BuilderModel {
        BuilderModel {
            endpoint: self.endpoint,
            vocabulary: self.vocabulary,
            parameters: self.parameters@.map_values(|p: Parameter| p@),
            topics: strings_view(self.topics@),
            flags: self.meta_data_flags@,
        }
    }
}

/// The query of a request: the endpoint, and the pairs in order.
pub struct RequestModel {
    pub endpoint: EndPoint,
    pub query: Seq<(Seq<char>, Seq<char>)>,
}

/// A request that passed the checks: its endpoint and its query pairs.
#[derive(Debug)]
pub struct Request {
    endpoint: EndPoint,
    query: Vec<(String, String)>,
}

impl View for Request {
    type V = RequestModel;

    closed spec fn view(&self) -> RequestModel {
        RequestModel { endpoint: self.endpoint, query: pairs_view(self.query@) }
    }
}

impl RequestBuilder {
    /// An empty builder for the given vocabulary and endpoint.
    pub fn new(vocabulary: Vocabulary, endpoint: EndPoint) -> (r: Self)
        ensures
            r@ == (BuilderModel {
                endpoint,
                vocabulary,
                parameters: Seq::empty(),
                topics: Seq::empty(),
                flags: Seq::empty(),
            }),
    {
        let r = RequestBuilder {
            endpoint,
            vocabulary,
            parameters: Vec::new(),
            topics: Vec::new(),
            meta_data_flags: Vec::new(),
        };
        assert(r@.parameters =~= Seq::empty());
        assert(r@.topics =~= Seq::empty());
        r
    }

    /// Adds the parameter.
    fn add(self, p: Parameter) -> (r: Self)
        ensures
            r@ == self@.with_parameter(p@),
    {
        let mut b = self;
        b.parameters.push(p);
        assert(b@.parameters =~= self@.parameters.push(p@));
        b
    }

    /// Asks for words with a meaning like `word`.
    pub fn means_like(self, word: &str) -> (r: Self)
        ensures
            r@ == self@.with_parameter(ParamModel::MeansLike(word@)),
    {
        self.add(Parameter::MeansLike(String::from_str(word)))
    }

    /// Asks for words that sound like `word`.
    pub fn sounds_like(self, word: &str) -> (r: Self)
        ensures
            r@ == self@.with_parameter(ParamModel::SoundsLike(word@)),
    {
        self.add(Parameter::SoundsLike(String::from_str(word)))
    }

    /// Asks for words spelled like `word`, where `?` stands for one letter and
    /// `*` for any number.
    pub fn spelled_like(self, word: &str) -> (r: Self)
        ensures
            r@ == self@.with_parameter(ParamModel::SpelledLike(word@)),
    {
        self.add(Parameter::SpelledLike(String::from_str(word)))
    }

    /// Asks for words in the relation `rel_type` to `word`; the Spanish
    /// vocabulary refuses it.
    pub fn related(self, rel_type: RelatedType, word: &str) -> (r: Self)
        ensures
            r@ == self@.with_parameter(ParamModel::Related(rel_type, word@)),
    {
        self.add(
            Parameter::Related(
                RelatedTypeHolder { related_type: rel_type, value: String::from_str(word) },
            ),
        )
    }

    /// Adds a topic; only the first five are sent.
    pub fn add_topic(self, word: &str) -> (r: Self)
        ensures
            r@ == (BuilderModel { topics: self@.topics.push(word@), ..self@ }),
    {
        let mut b = self;
        b.topics.push(String::from_str(word));
        assert(b@.topics =~= self@.topics.push(word@));
        b
    }

    /// Asks for words that come just after `word`.
    pub fn left_context(self, word: &str) -> (r: Self)
        ensures
            r@ == self@.with_parameter(ParamModel::LeftContext(word@)),
    {
        self.add(Parameter::LeftContext(String::from_str(word)))
    }

    /// Asks for words that come just before `word`.
    pub fn right_context(self, word: &str) -> (r: Self)
        ensures
            r@ == self@.with_parameter(ParamModel::RightContext(word@)),
    {
        self.add(Parameter::RightContext(String::from_str(word)))
    }

    /// Bounds the number of results; the suggest endpoint accepts it too.
    pub fn max_results(self, maximum: u16) -> (r: Self)
        ensures
            r@ == self@.with_parameter(ParamModel::MaxResults(maximum)),
    {
        self.add(Parameter::MaxResults(maximum))
    }

    /// Asks for a kind of metadata with each word.
    pub fn meta_data(self, flag: MetaDataFlag) -> (r: Self)
        ensures
            r@ == (BuilderModel { flags: self@.flags.push(flag), ..self@ }),
    {
        let mut b = self;
        b.meta_data_flags.push(flag);
        b
    }

    /// Sets the text that the suggest endpoint completes; the words endpoint
    /// refuses it.
    pub fn hint_string(self, hint: &str) -> (r: Self)
        ensures
            r@ == self@.with_parameter(ParamModel::HintString(hint@)),
    {
        self.add(Parameter::HintString(String::from_str(hint)))
    }

    /// The parameters to check and send, in order.
    fn all_parameters(&self) -> (r: Vec<Parameter>)
        ensures
            r@.map_values(|p: Parameter| p@) == self@.all_params(),
    {
        let mut all: Vec<Parameter> = Vec::new();
        let mut i: usize = 0;
        while i < self.parameters.len()
            invariant
                i <= self.parameters@.len(),
                all@.map_values(|p: Parameter| p@) == self@.parameters.take(i as int),
            decreases self.parameters@.len() - i,
        {
            let ghost before = all@;
            let c = self.parameters[i].copy_of();
            all.push(c);
            assert(all@.map_values(|p: Parameter| p@) =~= before.map_values(|p: Parameter| p@).push(
                c@,
            ));
            assert(self@.parameters.take(i + 1) =~= self@.parameters.take(i as int).push(
                self.parameters@[i as int]@,
            ));
            i = i + 1;
        }
        assert(self@.parameters.take(i as int) =~= self@.parameters);
        if self.topics.len() > 0 {
            let ghost before = all@;
            all.push(Parameter::Topics(copy_strings(&self.topics)));
            assert(all@.map_values(|p: Parameter| p@) =~= before.map_values(|p: Parameter| p@).push(
                ParamModel::Topics(self@.topics),
            ));
        }
        if self.meta_data_flags.len() > 0 {
            let ghost before = all@;
            all.push(Parameter::MetaData(copy_flags(&self.meta_data_flags)));
            assert(all@.map_values(|p: Parameter| p@) =~= before.map_values(|p: Parameter| p@).push(
                ParamModel::MetaData(self@.flags),
            ));
        }
        all
    }

    /// Checks every parameter against the vocabulary and the endpoint, in order,
    /// and gives the request with its query pairs, or the first refusal.
    pub fn build(&self) -> (r: Result<Request, Error>)
        ensures
            r is Err <==> self@.rejection() is Some,
            r matches Ok(req) ==> req@ == (RequestModel {
                endpoint: self@.endpoint,
                query: self@.query_pairs(),
            }),
            r matches Err(e) ==> e.rejection() == self@.rejection(),
    {
        let mut pairs: Vec<(String, String)> = Vec::new();
        if has_ipa(&self.meta_data_flags) {
            pairs.push((String::from_str("ipa"), String::from_str("1")));
        }
        match self.vocabulary.build() {
            Some(p) => pairs.push(p),
            None => {},
        }
        let ghost lead = self@.leading_pairs();
        assert(pairs_view(pairs@) =~= lead);
        let params = self.all_parameters();
        let ghost all = self@.all_params();
        let mut i: usize = 0;
        while i < params.len()
            invariant
                params@.map_values(|p: Parameter| p@) == all,
                all == self@.all_params(),
                lead == self@.leading_pairs(),
                i <= params@.len(),
                forall|j: int|
                    0 <= j < i ==> all[j].rejection(self@.vocabulary, self@.endpoint) is None,
                pairs_view(pairs@) == lead + all.take(i as int).map_values(
                    |p: ParamModel| p.key_value(),
                ),
            decreases params@.len() - i,
        {
            assert(all[i as int] == params@[i as int]@);
            match params[i].build(&self.vocabulary, &self.endpoint) {
                Ok(p) => {
                    let ghost before = pairs@;
                    pairs.push(p);
                    assert(all.take(i + 1).map_values(|p: ParamModel| p.key_value())
                        =~= all.take(i as int).map_values(|p: ParamModel| p.key_value()).push(
                        all[i as int].key_value(),
                    ));
                    assert(pairs_view(pairs@) =~= pairs_view(before).push((p.0@, p.1@)));
                },
                Err(e) => {
                    proof {
                        lemma_first_rejection_skip(
                            all,
                            self@.vocabulary,
                            self@.endpoint,
                            i as int,
                        );
                    }
                    return Err(e);
                },
            }
            i = i + 1;
        }
        proof {
            lemma_first_rejection_skip(all, self@.vocabulary, self@.endpoint, i as int);
            assert(all.take(i as int) =~= all);
        }
        Ok(Request { endpoint: self.endpoint, query: pairs })
    }
}

/// The address of an endpoint, without a query.
pub open spec fn endpoint_url(endpoint: EndPoint) -> Seq<char> {
    "https://api.datamuse.com/"@ + endpoint.path()
}

/// The text of a URL with query pairs appended, as the URL parser writes it
/// back: each key and value form-encoded, joined by `=` and `&`. It depends on
/// the base and the pairs alone.
pub uninterp spec fn url_with_query(base: Seq<char>, pairs: Seq<(Seq<char>, Seq<char>)>) -> Seq<
    char,
>;

/// Relies on `reqwest::Url::parse_with_params` (the url crate's): when the base
/// parses, the serialisation of the URL with the pairs appended to its query.
#[verifier::external_body]
fn parse_url_with_params(base: &str, pairs: &Vec<(String, String)>) -> (r: Option<String>)
    ensures
        r matches Some(u) ==> u@ == url_with_query(base@, pairs_view(pairs@)),
{
    reqwest::Url::parse_with_params(base, pairs.iter()).ok().map(String::from)
}

impl Request {
    /// The endpoint of the request.
    pub fn endpoint(&self) -> (r: EndPoint)
        ensures
            r == self@.endpoint,
    {
        self.endpoint
    }

    /// The query pairs of the request, in order.
    pub fn query(&self) -> (r: &Vec<(String, String)>)
        ensures
            pairs_view(r@) == self@.query,
    {
        &self.query
    }

    /// The address of the request's endpoint, without the query.
    pub fn base_url(&self) -> (r: String)
        ensures
            r@ == endpoint_url(self@.endpoint),
    {
        String::from_str("https://api.datamuse.com/").concat(self.endpoint.get_string().as_str())
    }

    /// The full URL of the request, with its query pairs form-encoded; a request
    /// without pairs has no query part. `None` where the URL parser refuses it.
    pub fn url(&self) -> (r: Option<String>)
        ensures
            self@.query.len() == 0 ==> (r matches Some(u) && u@ == endpoint_url(self@.endpoint)),
            self@.query.len() > 0 ==> (r matches Some(u) ==> u@ == url_with_query(
                endpoint_url(self@.endpoint),
                self@.query,
            )),
    {
        let base = self.base_url();
        if self.query.len() == 0 {
            Some(base)
        } else {
            parse_url_with_params(base.as_str(), &self.query)
        }
    }
}

/// Where some parameter is refused, the first refusal is that of a refused
/// parameter with no refused one before it.
pub proof fn lemma_first_rejection_found(
    params: Seq<ParamModel>,
    vocabulary: Vocabulary,
    endpoint: EndPoint,
    i: int,
)
    requires
        0 <= i < params.len(),
        params[i].rejection(vocabulary, endpoint) is Some,
    ensures
        exists|k: int|
            #![trigger params[k]]
            0 <= k <= i && first_rejection(params, vocabulary, endpoint) == params[k].rejection(
                vocabulary,
                endpoint,
            ) && params[k].rejection(vocabulary, endpoint) is Some && forall|j: int|
                0 <= j < k ==> params[j].rejection(vocabulary, endpoint) is None,
    decreases params.len(),
{
    if params[0].rejection(vocabulary, endpoint) is Some {
        assert(first_rejection(params, vocabulary, endpoint) == params[0].rejection(
            vocabulary,
            endpoint,
        ));
    } else {
        let rest = params.drop_first();
        assert(rest[i - 1] == params[i]);
        lemma_first_rejection_found(rest, vocabulary, endpoint, i - 1);
        let k = choose|k: int|
            #![trigger rest[k]]
            0 <= k <= i - 1 && first_rejection(rest, vocabulary, endpoint) == rest[k].rejection(
                vocabulary,
                endpoint,
            ) && rest[k].rejection(vocabulary, endpoint) is Some && forall|j: int|
                0 <= j < k ==> rest[j].rejection(vocabulary, endpoint) is None;
        assert(params[k + 1] == rest[k]);
        assert forall|j: int| 0 <= j < k + 1 implies params[j].rejection(
            vocabulary,
            endpoint,
        ) is None by {
            if j > 0 {
                assert(params[j] == rest[j - 1]);
            }
        }
    }
}

/// On the suggest endpoint, a builder that holds a parameter other than a
/// result bound or a hint string is refused with an endpoint error, unless a
/// relation under the Spanish vocabulary comes first and is refused for that.
pub proof fn suggest_refuses_other_parameters(b: BuilderModel, i: int)
    requires
        b.endpoint == EndPoint::Suggest,
        0 <= i < b.all_params().len(),
        !(b.all_params()[i] is MaxResults || b.all_params()[i] is HintString),
        forall|j: int|
            0 <= j <= i ==> !(b.all_params()[j] is Related && b.vocabulary == Vocabulary::Spanish),
    ensures
        b.rejection() matches Some(Rejection::EndPoint(e, _)) && e == "Suggest"@,
{
    let ps = b.all_params();
    lemma_first_rejection_found(ps, b.vocabulary, b.endpoint, i);
}

/// On the words endpoint, a builder that holds a hint string is refused with an
/// endpoint error naming the hint string, unless a relation under the Spanish
/// vocabulary comes first and is refused for that.
pub proof fn words_refuse_hint_string(b: BuilderModel, i: int)
    requires
        b.endpoint == EndPoint::Words,
        0 <= i < b.all_params().len(),
        b.all_params()[i] is HintString,
        forall|j: int|
            0 <= j < i ==> !(b.all_params()[j] is Related && b.vocabulary == Vocabulary::Spanish),
    ensures
        b.rejection() == Some(Rejection::EndPoint("Words"@, "HintString"@)),
{
    let ps = b.all_params();
    lemma_first_rejection_found(ps, b.vocabulary, b.endpoint, i);
}

/// Under the Spanish vocabulary, a builder that holds a relation is refused
/// with a vocabulary error, unless a parameter before the relation is refused
/// by the endpoint.
pub proof fn spanish_refuses_related(b: BuilderModel, i: int)
    requires
        b.vocabulary == Vocabulary::Spanish,
        0 <= i < b.all_params().len(),
        b.all_params()[i] is Related,
        forall|j: int|
            0 <= j < i ==> !(#[trigger] b.all_params()[j].rejection(b.vocabulary, b.endpoint) matches Some(
                Rejection::EndPoint(_, _),
            )),
    ensures
        b.rejection() == Some(Rejection::Vocabulary("Spanish"@, "Related"@)),
{
    let ps = b.all_params();
    lemma_first_rejection_found(ps, b.vocabulary, b.endpoint, i);
}

/// The topics are sent as one pair after the parameters added with setters:
/// the first five topics in the order they were added, joined with commas.
pub proof fn topics_keep_first_five(b: BuilderModel)
    requires
        b.topics.len() > 5,
    ensures
        b.query_pairs()[b.leading_pairs().len() + b.parameters.len() as int] == ("topics"@, join_commas(
            b.topics.take(5),
        )),
{
    let ps = b.all_params();
    assert(ps[b.parameters.len() as int] == ParamModel::Topics(b.topics));
}

/// A flag that asks for pronunciations in the International Phonetic Alphabet
/// puts `ipa=1` first in the query, and the flags' letters, `r` among them,
/// last.
pub proof fn ipa_flag_adds_ipa_pair(b: BuilderModel)
    requires
        asks_ipa(b.flags),
    ensures
        b.query_pairs()[0] == ("ipa"@, "1"@),
        b.query_pairs().last() == ("md"@, flag_letters(b.flags)),
        flag_letters(b.flags).contains('r'),
{
    let k = choose|k: int|
        0 <= k < b.flags.len() && b.flags[k] == MetaDataFlag::Pronunciation(PronunciationFormat::Ipa);
    assert(flag_letters(b.flags)[k] == 'r');
    assert(b.all_params().last() == ParamModel::MetaData(b.flags));
}

} // verus!
