use datamuse_api_wrapper::text::{push_decimal, same_text, split_on};
use datamuse_api_wrapper::{
    decode_word_object, DatamuseWordObject, Definition, PartOfSpeech,
    Response, WordElement,
};

fn strings(items: &[&str]) -> Vec<String> {
    items.iter().map(|s| s.to_string()).collect()
}

fn string_list(v: &serde_json::Value) -> Option<Vec<String>> {
    v.as_array().map(|items| {
        items
            .iter()
            .map(|i| i.as_str().unwrap().to_string())
            .collect()
    })
}

fn records_of(json: &str) -> Vec<DatamuseWordObject> {
    let value: serde_json::Value = serde_json::from_str(json).unwrap();
    value
        .as_array()
        .unwrap()
        .iter()
        .map(|o| DatamuseWordObject {
            word: o["word"].as_str().unwrap().to_string(),
            score: o["score"].as_u64().unwrap() as usize,
            num_syllables: o.get("numSyllables").and_then(|n| n.as_u64()).map(|n| n as usize),
            tags: o.get("tags").and_then(string_list),
            defs: o.get("defs").and_then(string_list),
        })
        .collect()
}

fn record(tags: Option<&[&str]>, defs: Option<&[&str]>) -> DatamuseWordObject {
    DatamuseWordObject {
        word: String::from("w"),
        score: 1,
        num_syllables: None,
        tags: tags.map(strings),
        defs: defs.map(strings),
    }
}

#[test]
fn word_obj_to_word_elem() {
    let word_obj = DatamuseWordObject {
        word: String::from("cow"),
        score: 2168,
        num_syllables: Some(1),
        tags: Some(vec![
            String::from("n"),
            String::from("pron:K AW1 "),
            String::from("f:16.567268"),
        ]),
        defs: Some(vec![
            String::from("n\tmature female of mammals of which the male is called `bull'"),
            String::from("n\tfemale of domestic cattle"),
        ]),
    };

    let actual = datamuse_api_wrapper::word_obj_to_word_elem(word_obj);

    let expected = WordElement {
        word: String::from("cow"),
        score: 2168,
        num_syllables: Some(1),
        parts_of_speech: Some(vec![PartOfSpeech::Noun]),
        pronunciation: Some(String::from("K AW1 ")),
        frequency: Some(String::from("16.567268")),
        definitions: Some(vec![
            Definition {
                part_of_speech: Some(PartOfSpeech::Noun),
                definition: String::from(
                    "mature female of mammals of which the male is called `bull'",
                ),
            },
            Definition {
                part_of_speech: Some(PartOfSpeech::Noun),
                definition: String::from("female of domestic cattle"),
            },
        ]),
    };

    assert_eq!(expected, actual);
    let frequency: f32 = actual.frequency.unwrap().parse().unwrap();
    assert_eq!(frequency, 16.567268);
}

#[test]
fn json_to_word_elem() {
    let json = r#"
    [
        {
            "word":"milk",
            "score":2168,
            "numSyllables":1,
            "tags": [],
            "defs": []
        },
        {
            "word":"cow",
            "score":2168,
            "numSyllables":1,
            "tags": [
                "n",
                "pron:K AW1 ",
                "f:16.567268"
            ],
            "defs": [
                "n\tmature female of mammals of which the male is called `bull'",
                "n\tfemale of domestic cattle"
            ]
        }
    ]
    "#;

    let actual = Response::new(records_of(json)).list();

    let expected1 = WordElement {
        word: String::from("milk"),
        score: 2168,
        num_syllables: Some(1),
        parts_of_speech: None,
        pronunciation: None,
        frequency: None,
        definitions: None,
    };

    let expected2 = WordElement {
        word: String::from("cow"),
        score: 2168,
        num_syllables: Some(1),
        parts_of_speech: Some(vec![PartOfSpeech::Noun]),
        pronunciation: Some(String::from("K AW1 ")),
        frequency: Some(String::from("16.567268")),
        definitions: Some(vec![
            Definition {
                part_of_speech: Some(PartOfSpeech::Noun),
                definition: String::from(
                    "mature female of mammals of which the male is called `bull'",
                ),
            },
            Definition {
                part_of_speech: Some(PartOfSpeech::Noun),
                definition: String::from("female of domestic cattle"),
            },
        ]),
    };

    assert_eq!(expected1, actual[0]);
    assert_eq!(expected2, actual[1]);
}

#[test]
fn list_twice_gives_equal_results() {
    let response = Response::new(vec![
        record(Some(&["adj", "ipa_pron:kaʊ", "f:2.5"]), Some(&["v\tto cow"])),
        record(None, None),
    ]);
    let first = response.list();
    let second = response.list();
    assert_eq!(first, second);
    assert_eq!(first.len(), 2);
}

#[test]
fn empty_response_lists_nothing() {
    assert!(Response::new(Vec::new()).list().is_empty());
}

#[test]
fn absent_tags_and_defs_give_absent_fields() {
    let e = datamuse_api_wrapper::word_obj_to_word_elem(record(None, None));
    assert_eq!(e.parts_of_speech, None);
    assert_eq!(e.pronunciation, None);
    assert_eq!(e.frequency, None);
    assert_eq!(e.definitions, None);
}

#[test]
fn ipa_pronunciation_wins_after_arpabet() {
    let e = datamuse_api_wrapper::word_obj_to_word_elem(record(Some(&["pron:K AW1", "ipa_pron:kaʊ"]), None));
    assert_eq!(e.pronunciation, Some(String::from("kaʊ")));
}

#[test]
fn ipa_pronunciation_wins_before_arpabet() {
    let e = datamuse_api_wrapper::word_obj_to_word_elem(record(Some(&["ipa_pron:kaʊ", "pron:K AW1"]), None));
    assert_eq!(e.pronunciation, Some(String::from("kaʊ")));
}

#[test]
fn first_arpabet_pronunciation_is_kept() {
    let e = datamuse_api_wrapper::word_obj_to_word_elem(record(Some(&["pron:A", "pron:B"]), None));
    assert_eq!(e.pronunciation, Some(String::from("A")));
}

#[test]
fn tags_round_trip_on_values() {
    let e = datamuse_api_wrapper::word_obj_to_word_elem(record(Some(&["v", "n", "adv", "ipa_pron:x y", "f:0.25"]), None));
    let pos = e.parts_of_speech.clone().unwrap();
    assert_eq!(pos, vec![PartOfSpeech::Verb, PartOfSpeech::Noun, PartOfSpeech::Adverb]);
    let codes: Vec<&str> = pos
        .iter()
        .map(|p| match p {
            PartOfSpeech::Noun => "n",
            PartOfSpeech::Adjective => "adj",
            PartOfSpeech::Adverb => "adv",
            PartOfSpeech::Verb => "v",
        })
        .collect();
    let mut tags: Vec<String> = strings(&codes);
    tags.push(format!("ipa_pron:{}", e.pronunciation.clone().unwrap()));
    tags.push(format!("f:{}", e.frequency.clone().unwrap()));
    let again = datamuse_api_wrapper::word_obj_to_word_elem(DatamuseWordObject {
        tags: Some(tags),
        ..record(None, None)
    });
    assert_eq!(again.parts_of_speech, e.parts_of_speech);
    assert_eq!(again.pronunciation, e.pronunciation);
    assert_eq!(again.frequency, e.frequency);
}

#[test]
fn malformed_tags_are_ignored() {
    let e = datamuse_api_wrapper::word_obj_to_word_elem(record(
        Some(&["u", "n:x", "f", "f:1:2", "pron", "pron:a:b", "ipa_pron", "adj"]),
        None,
    ));
    assert_eq!(e.parts_of_speech, Some(vec![PartOfSpeech::Adjective]));
    assert_eq!(e.pronunciation, None);
    assert_eq!(e.frequency, None);
}

#[test]
fn last_frequency_tag_is_kept() {
    let e = datamuse_api_wrapper::word_obj_to_word_elem(record(Some(&["f:1.5", "f:3"]), None));
    assert_eq!(e.frequency, Some(String::from("3")));
}

#[test]
fn malformed_definitions_are_dropped() {
    let e = datamuse_api_wrapper::word_obj_to_word_elem(record(None, Some(&["no tab", "a\tb\tc"])));
    assert_eq!(e.definitions, None);
    let f = datamuse_api_wrapper::word_obj_to_word_elem(record(None, Some(&["bad", "u\tsomething", "adj\tbig"])));
    assert_eq!(
        f.definitions,
        Some(vec![
            Definition {
                part_of_speech: None,
                definition: String::from("something"),
            },
            Definition {
                part_of_speech: Some(PartOfSpeech::Adjective),
                definition: String::from("big"),
            },
        ])
    );
}

#[test]
fn decode_by_reference_matches_by_value() {
    let r = record(Some(&["n", "pron:X"]), Some(&["n\tthing"]));
    let by_ref = decode_word_object(&r);
    assert_eq!(by_ref, datamuse_api_wrapper::word_obj_to_word_elem(r));
}

#[test]
fn part_of_speech_codes() {
    assert_eq!(PartOfSpeech::from_str("n"), Some(PartOfSpeech::Noun));
    assert_eq!(PartOfSpeech::from_str("adj"), Some(PartOfSpeech::Adjective));
    assert_eq!(PartOfSpeech::from_str("adv"), Some(PartOfSpeech::Adverb));
    assert_eq!(PartOfSpeech::from_str("v"), Some(PartOfSpeech::Verb));
    assert_eq!(PartOfSpeech::from_str("u"), None);
    assert_eq!(PartOfSpeech::from_str(""), None);
    assert_eq!(PartOfSpeech::from_str("nn"), None);
}

#[test]
fn text_helpers() {
    assert_eq!(split_on("a:b::c", ':'), strings(&["a", "b", "", "c"]));
    assert_eq!(split_on("", ':'), strings(&[""]));
    assert_eq!(split_on(":", ':'), strings(&["", ""]));
    assert!(same_text("pron", "pron"));
    assert!(!same_text("pron", "pro"));
    let mut out = String::from("x=");
    push_decimal(&mut out, 1203);
    assert_eq!(out, "x=1203");
}
