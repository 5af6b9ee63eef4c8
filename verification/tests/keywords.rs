use porcupine::{BuiltinKeywords, KEYWORDS};

const ALL: [BuiltinKeywords; 14] = [
    BuiltinKeywords::Alexa,
    BuiltinKeywords::Americano,
    BuiltinKeywords::Blueberry,
    BuiltinKeywords::Bumblebee,
    BuiltinKeywords::Computer,
    BuiltinKeywords::Grapefruit,
    BuiltinKeywords::Grasshopper,
    BuiltinKeywords::HeyGoogle,
    BuiltinKeywords::HeySiri,
    BuiltinKeywords::Jarvis,
    BuiltinKeywords::OkGoogle,
    BuiltinKeywords::Picovoice,
    BuiltinKeywords::Porcupine,
    BuiltinKeywords::Terminator,
];

#[test]
fn keyword_names_read_back() {
    for name in BuiltinKeywords::options() {
        let keyword = BuiltinKeywords::from_str(name).expect("a listed name is a keyword");
        assert_eq!(keyword.to_str(), name);
    }
    for keyword in ALL {
        assert_eq!(BuiltinKeywords::from_str(keyword.to_str()), Ok(keyword));
    }
}

#[test]
fn keyword_names_are_as_published() {
    assert_eq!(BuiltinKeywords::Alexa.to_str(), "alexa");
    assert_eq!(BuiltinKeywords::HeyGoogle.to_str(), "hey google");
    assert_eq!(BuiltinKeywords::HeySiri.to_str(), "hey siri");
    assert_eq!(BuiltinKeywords::OkGoogle.to_str(), "ok google");
    assert_eq!(BuiltinKeywords::Porcupine.to_str(), "porcupine");
    assert_eq!(BuiltinKeywords::Terminator.to_str(), "terminator");
}

#[test]
fn options_list_every_keyword_in_order() {
    let options = BuiltinKeywords::options();
    assert_eq!(
        options,
        vec![
            "alexa",
            "americano",
            "blueberry",
            "bumblebee",
            "computer",
            "grapefruit",
            "grasshopper",
            "hey google",
            "hey siri",
            "jarvis",
            "ok google",
            "picovoice",
            "porcupine",
            "terminator",
        ]
    );
    for (keyword, name) in ALL.iter().zip(options) {
        assert_eq!(keyword.to_str(), name);
    }
}

#[test]
fn other_texts_are_no_keywords() {
    assert_eq!(BuiltinKeywords::from_str("hey barista"), Err(()));
    assert_eq!(BuiltinKeywords::from_str(""), Err(()));
    assert_eq!(BuiltinKeywords::from_str("Alexa"), Err(()));
    assert_eq!(BuiltinKeywords::from_str("alexa "), Err(()));
    assert_eq!(BuiltinKeywords::from_str("hey_google"), Err(()));
    assert_eq!(BuiltinKeywords::from_str("porcupin\u{e9}"), Err(()));
}

#[test]
fn published_names_hold_the_built_in_ones() {
    assert_eq!(KEYWORDS.len(), 15);
    for name in BuiltinKeywords::options() {
        assert!(KEYWORDS.contains(&name));
    }
    assert!(KEYWORDS.contains(&"hey barista"));
}
