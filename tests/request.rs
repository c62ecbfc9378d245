use datamuse_api_wrapper::{
    EndPoint, Error, MetaDataFlag, Parameter, PronunciationFormat, RelatedType, RelatedTypeHolder,
    RequestBuilder, Vocabulary,
};

#[test]
fn means_like_and_sounds_like() {
    let request = RequestBuilder::new(Vocabulary::English, EndPoint::Words)
        .means_like("cap")
        .sounds_like("flat");

    assert_eq!(
        "https://api.datamuse.com/words?ml=cap&sl=flat",
        request.build().unwrap().url().unwrap()
    );
}

#[test]
fn left_context_and_spelled_like() {
    let request = RequestBuilder::new(Vocabulary::English, EndPoint::Words)
        .left_context("drink")
        .spelled_like("w*");

    assert_eq!(
        "https://api.datamuse.com/words?lc=drink&sp=w*",
        request.build().unwrap().url().unwrap()
    );
}

#[test]
fn right_context_and_max_results() {
    let request = RequestBuilder::new(Vocabulary::English, EndPoint::Words)
        .right_context("food")
        .max_results(500);

    assert_eq!(
        "https://api.datamuse.com/words?rc=food&max=500",
        request.build().unwrap().url().unwrap()
    );
}

#[test]
fn topics_and_sounds_like() {
    let request = RequestBuilder::new(Vocabulary::English, EndPoint::Words)
        .add_topic("color")
        .sounds_like("clue")
        .add_topic("sad");

    assert_eq!(
        "https://api.datamuse.com/words?sl=clue&topics=color%2Csad",
        request.build().unwrap().url().unwrap()
    );
}

#[test]
fn suggest_endpoint() {
    let request = RequestBuilder::new(Vocabulary::English, EndPoint::Suggest)
        .hint_string("hel")
        .max_results(20);

    assert_eq!(
        "https://api.datamuse.com/sug?s=hel&max=20",
        request.build().unwrap().url().unwrap()
    );
}

#[test]
#[should_panic]
fn suggest_endpoint_fail() {
    let request = RequestBuilder::new(Vocabulary::English, EndPoint::Suggest).add_topic("color");
    request.build().unwrap();
}

#[test]
#[should_panic]
fn words_endpoint_fail() {
    let request = RequestBuilder::new(Vocabulary::English, EndPoint::Words)
        .add_topic("color")
        .hint_string("blu");
    request.build().unwrap();
}

#[test]
#[should_panic]
fn spanish_vocabulary_fail() {
    let request = RequestBuilder::new(Vocabulary::Spanish, EndPoint::Words)
        .related(RelatedType::Trigger, "frutas")
        .sounds_like("manta");

    request.build().unwrap();
}

#[test]
fn noun_and_adjective_modifiers() {
    let request = RequestBuilder::new(Vocabulary::English, EndPoint::Words)
        .related(RelatedType::AdjectiveModifier, "food")
        .related(RelatedType::NounModifiedBy, "fresh");

    assert_eq!(
        "https://api.datamuse.com/words?rel_jjb=food&rel_jja=fresh",
        request.build().unwrap().url().unwrap()
    );
}

#[test]
fn synonyms_and_triggers() {
    let request = RequestBuilder::new(Vocabulary::English, EndPoint::Words)
        .related(RelatedType::Synonym, "grass")
        .related(RelatedType::Trigger, "cow");

    assert_eq!(
        "https://api.datamuse.com/words?rel_syn=grass&rel_trg=cow",
        request.build().unwrap().url().unwrap()
    );
}

#[test]
fn antonyms_and_consonant_match() {
    let request = RequestBuilder::new(Vocabulary::English, EndPoint::Words)
        .related(RelatedType::Antonym, "good")
        .related(RelatedType::ConsonantMatch, "bed");

    assert_eq!(
        "https://api.datamuse.com/words?rel_ant=good&rel_cns=bed",
        request.build().unwrap().url().unwrap()
    );
}

#[test]
fn kind_of_and_more_general() {
    let request = RequestBuilder::new(Vocabulary::English, EndPoint::Words)
        .related(RelatedType::KindOf, "wagon")
        .related(RelatedType::MoreGeneral, "vehicle");

    assert_eq!(
        "https://api.datamuse.com/words?rel_spc=wagon&rel_gen=vehicle",
        request.build().unwrap().url().unwrap()
    );
}

#[test]
fn comprises_and_part_of() {
    let request = RequestBuilder::new(Vocabulary::English, EndPoint::Words)
        .related(RelatedType::Comprises, "car")
        .related(RelatedType::PartOf, "glass");

    assert_eq!(
        "https://api.datamuse.com/words?rel_com=car&rel_par=glass",
        request.build().unwrap().url().unwrap()
    );
}

#[test]
fn follows_and_precedes() {
    let request = RequestBuilder::new(Vocabulary::English, EndPoint::Words)
        .related(RelatedType::Follower, "soda")
        .related(RelatedType::Predecessor, "drink");

    assert_eq!(
        "https://api.datamuse.com/words?rel_bga=soda&rel_bgb=drink",
        request.build().unwrap().url().unwrap()
    );
}

#[test]
fn both_rhymes_and_homophones() {
    let request = RequestBuilder::new(Vocabulary::English, EndPoint::Words)
        .related(RelatedType::Rhyme, "cat")
        .related(RelatedType::Homophones, "mate")
        .related(RelatedType::ApproximateRhyme, "fate");

    assert_eq!(
        "https://api.datamuse.com/words?rel_rhy=cat&rel_hom=mate&rel_nry=fate",
        request.build().unwrap().url().unwrap()
    );
}

#[test]
fn all_meta_data_flags() {
    let request = RequestBuilder::new(Vocabulary::English, EndPoint::Words)
        .related(RelatedType::Trigger, "cow")
        .meta_data(MetaDataFlag::Definitions)
        .meta_data(MetaDataFlag::PartsOfSpeech)
        .meta_data(MetaDataFlag::SyllableCount)
        .meta_data(MetaDataFlag::WordFrequency)
        .meta_data(MetaDataFlag::Pronunciation(PronunciationFormat::Arpabet));

    assert_eq!(
        "https://api.datamuse.com/words?rel_trg=cow&md=dpsfr",
        request.build().unwrap().url().unwrap()
    );
}

#[test]
fn pronunciation_ipa() {
    let request = RequestBuilder::new(Vocabulary::English, EndPoint::Words)
        .related(RelatedType::Trigger, "soda")
        .meta_data(MetaDataFlag::Pronunciation(PronunciationFormat::Ipa));

    assert_eq!(
        "https://api.datamuse.com/words?ipa=1&rel_trg=soda&md=r",
        request.build().unwrap().url().unwrap()
    );
}

fn pairs(builder: &RequestBuilder) -> Vec<(String, String)> {
    builder.build().unwrap().query().clone()
}

fn pair(k: &str, v: &str) -> (String, String) {
    (k.to_string(), v.to_string())
}

#[test]
fn suggest_refuses_means_like_with_endpoint_error() {
    let request = RequestBuilder::new(Vocabulary::English, EndPoint::Suggest)
        .hint_string("hel")
        .means_like("cap");
    match request.build() {
        Err(Error::EndPointError((endpoint, parameter))) => {
            assert_eq!(endpoint, "Suggest");
            assert_eq!(parameter, "MeansLike");
        }
        other => panic!("unexpected result: {:?}", other.map(|r| r.query().clone())),
    }
}

#[test]
fn suggest_refuses_topics_and_meta_data_by_kind() {
    let topics = RequestBuilder::new(Vocabulary::English, EndPoint::Suggest).add_topic("color");
    match topics.build() {
        Err(Error::EndPointError((endpoint, parameter))) => {
            assert_eq!(endpoint, "Suggest");
            assert_eq!(parameter, "Topic");
        }
        _ => panic!("topics should be refused"),
    }
    let flags = RequestBuilder::new(Vocabulary::English, EndPoint::Suggest)
        .meta_data(MetaDataFlag::Definitions);
    match flags.build() {
        Err(Error::EndPointError((_, parameter))) => assert_eq!(parameter, "MetaData"),
        _ => panic!("metadata should be refused"),
    }
}

#[test]
fn words_refuses_hint_string_with_endpoint_error() {
    let request = RequestBuilder::new(Vocabulary::English, EndPoint::Words)
        .means_like("cap")
        .hint_string("blu");
    match request.build() {
        Err(Error::EndPointError((endpoint, parameter))) => {
            assert_eq!(endpoint, "Words");
            assert_eq!(parameter, "HintString");
        }
        _ => panic!("hint string should be refused"),
    }
}

#[test]
fn spanish_refuses_related_with_vocabulary_error() {
    let request = RequestBuilder::new(Vocabulary::Spanish, EndPoint::Words)
        .sounds_like("manta")
        .related(RelatedType::Trigger, "frutas");
    match request.build() {
        Err(Error::VocabularyError((vocabulary, parameter))) => {
            assert_eq!(vocabulary, "Spanish");
            assert_eq!(parameter, "Related");
        }
        _ => panic!("relation should be refused"),
    }
}

#[test]
fn spanish_relation_on_suggest_is_a_vocabulary_error() {
    let request =
        RequestBuilder::new(Vocabulary::Spanish, EndPoint::Suggest).related(RelatedType::Rhyme, "x");
    assert!(matches!(request.build(), Err(Error::VocabularyError(_))));
}

#[test]
fn first_refused_parameter_decides_the_error() {
    let request = RequestBuilder::new(Vocabulary::Spanish, EndPoint::Suggest)
        .left_context("a")
        .related(RelatedType::Rhyme, "x");
    match request.build() {
        Err(Error::EndPointError((_, parameter))) => assert_eq!(parameter, "LeftContext"),
        _ => panic!("left context should be refused first"),
    }
}

#[test]
fn topics_beyond_five_are_dropped() {
    let request = RequestBuilder::new(Vocabulary::English, EndPoint::Words)
        .add_topic("a")
        .add_topic("b")
        .add_topic("c")
        .add_topic("d")
        .add_topic("e")
        .add_topic("f")
        .add_topic("g");
    assert_eq!(pairs(&request), vec![pair("topics", "a,b,c,d,e")]);
    assert_eq!(
        "https://api.datamuse.com/words?topics=a%2Cb%2Cc%2Cd%2Ce",
        request.build().unwrap().url().unwrap()
    );
}

#[test]
fn exactly_five_topics_are_all_sent() {
    let request = RequestBuilder::new(Vocabulary::English, EndPoint::Words)
        .add_topic("a")
        .add_topic("b")
        .add_topic("c")
        .add_topic("d")
        .add_topic("e");
    assert_eq!(pairs(&request), vec![pair("topics", "a,b,c,d,e")]);
}

#[test]
fn ipa_pair_comes_once_before_the_vocabulary() {
    let request = RequestBuilder::new(Vocabulary::Spanish, EndPoint::Words)
        .means_like("sol")
        .meta_data(MetaDataFlag::Pronunciation(PronunciationFormat::Ipa))
        .meta_data(MetaDataFlag::Pronunciation(PronunciationFormat::Ipa))
        .meta_data(MetaDataFlag::Definitions);
    assert_eq!(
        pairs(&request),
        vec![
            pair("ipa", "1"),
            pair("v", "es"),
            pair("ml", "sol"),
            pair("md", "rrd")
        ]
    );
}

#[test]
fn english_wiki_vocabulary_pair() {
    let request = RequestBuilder::new(Vocabulary::EnglishWiki, EndPoint::Words).means_like("cap");
    assert_eq!(
        "https://api.datamuse.com/words?v=enwiki&ml=cap",
        request.build().unwrap().url().unwrap()
    );
}

#[test]
fn empty_builder_has_no_query() {
    let request = RequestBuilder::new(Vocabulary::English, EndPoint::Words);
    let built = request.build().unwrap();
    assert!(built.query().is_empty());
    assert_eq!("https://api.datamuse.com/words", built.url().unwrap());
    assert_eq!("https://api.datamuse.com/words", built.base_url());
}

#[test]
fn values_are_form_encoded_in_the_url() {
    let request = RequestBuilder::new(Vocabulary::English, EndPoint::Suggest).hint_string("hello wor&");
    assert_eq!(
        "https://api.datamuse.com/sug?s=hello+wor%26",
        request.build().unwrap().url().unwrap()
    );
}

#[test]
fn max_results_edges_in_decimal() {
    let zero = RequestBuilder::new(Vocabulary::English, EndPoint::Suggest).max_results(0);
    assert_eq!(pairs(&zero), vec![pair("max", "0")]);
    let top = RequestBuilder::new(Vocabulary::English, EndPoint::Suggest).max_results(u16::MAX);
    assert_eq!(pairs(&top), vec![pair("max", "65535")]);
    let ten = RequestBuilder::new(Vocabulary::English, EndPoint::Suggest).max_results(10);
    assert_eq!(pairs(&ten), vec![pair("max", "10")]);
}

#[test]
fn build_can_be_called_twice() {
    let request = RequestBuilder::new(Vocabulary::English, EndPoint::Words)
        .means_like("cap")
        .add_topic("hat");
    assert_eq!(pairs(&request), pairs(&request));
    assert_eq!(pairs(&request), vec![pair("ml", "cap"), pair("topics", "hat")]);
}

#[test]
fn repeated_setters_add_pairs() {
    let request = RequestBuilder::new(Vocabulary::English, EndPoint::Words)
        .means_like("a")
        .means_like("b");
    assert_eq!(pairs(&request), vec![pair("ml", "a"), pair("ml", "b")]);
}

#[test]
fn parameter_build_and_kind_name() {
    let p = Parameter::Related(RelatedTypeHolder {
        related_type: RelatedType::Synonym,
        value: String::from("big"),
    });
    let built = p.build(&Vocabulary::English, &EndPoint::Words).unwrap();
    assert_eq!(built, pair("rel_syn", "big"));
    assert_eq!(p.kind_name(), "Related");
    assert_eq!(Parameter::Topics(vec![String::from("x")]).kind_name(), "Topic");
}

#[test]
fn codes_of_enums() {
    assert_eq!(EndPoint::Words.get_string(), "words");
    assert_eq!(EndPoint::Suggest.get_string(), "sug");
    assert_eq!(Vocabulary::English.build(), None);
    assert_eq!(Vocabulary::Spanish.build(), Some(pair("v", "es")));
    assert_eq!(MetaDataFlag::SyllableCount.get_letter_identifier(), 's');
    assert_eq!(
        MetaDataFlag::Pronunciation(PronunciationFormat::Ipa).get_letter_identifier(),
        'r'
    );
    let holder = RelatedTypeHolder {
        related_type: RelatedType::ConsonantMatch,
        value: String::from("bed"),
    };
    assert_eq!(holder.get_type_identifier(), "cns");
    assert_eq!(holder.get_word(), "bed");
}

#[test]
fn error_messages() {
    let vocabulary = RequestBuilder::new(Vocabulary::Spanish, EndPoint::Words)
        .related(RelatedType::Rhyme, "x")
        .build();
    match vocabulary {
        Err(e) => assert_eq!(
            e.message(),
            "Error: The parameter Related is not yet supported for Spanish"
        ),
        Ok(_) => panic!("relation should be refused"),
    }
    let endpoint = RequestBuilder::new(Vocabulary::English, EndPoint::Words)
        .hint_string("x")
        .build();
    match endpoint {
        Err(e) => assert_eq!(
            e.message(),
            "Error: The parameter HintString is not supported for Words"
        ),
        Ok(_) => panic!("hint string should be refused"),
    }
}
