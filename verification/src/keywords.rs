//! The keywords whose models ship with the engine.

use vstd::prelude::*;
use crate::text::str_eq;

verus! {

/// A keyword with a built-in model.
#[derive(PartialEq, Eq, Clone, Copy, Debug, Structural)]
pub enum BuiltinKeywords {
    Alexa,
    Americano,
    Blueberry,
    Bumblebee,
    Computer,
    Grapefruit,
    Grasshopper,
    HeyGoogle,
    HeySiri,
    Jarvis,
    OkGoogle,
    Picovoice,
    Porcupine,
    Terminator,
}

/// The names of the keywords for which the vendor publishes a model.
pub const KEYWORDS: [&'static str; 15] = [
    "alexa",
    "americano",
    "blueberry",
    "bumblebee",
    "computer",
    "grapefruit",
    "grasshopper",
    "hey barista",
    "hey google",
    "hey siri",
    "jarvis",
    "ok google",
    "picovoice",
    "porcupine",
    "terminator",
];

/// Every built-in keyword, in alphabetical order of its name.
pub open spec fn all_keywords() -> Seq<BuiltinKeywords> {
    seq![
        BuiltinKeywords::Alexa,
        BuiltinKeywords::Americano,
        BuiltinKeywords::Blueberry,
        BuiltinKeywords::Bumblebee,
        BuiltinKeywords::Computer,
        BuiltinKeywords::Grapefruit,
        BuiltinKeywords::Grasshopper,
        BuiltinKeywords::HeyGoogle,
        BuiltinKeywords::HeySiri,
        BuiltinKeywords::Jarvis,
        BuiltinKeywords::OkGoogle,
        BuiltinKeywords::Picovoice,
        BuiltinKeywords::Porcupine,
        BuiltinKeywords::Terminator,
    ]
}

impl BuiltinKeywords {
    /// The name of the keyword: lower case, words separated by one space.
    pub open spec fn spec_name(self) -> Seq<char> {
        match self {
            BuiltinKeywords::Alexa => "alexa"@,
            BuiltinKeywords::Americano => "americano"@,
            BuiltinKeywords::Blueberry => "blueberry"@,
            BuiltinKeywords::Bumblebee => "bumblebee"@,
            BuiltinKeywords::Computer => "computer"@,
            BuiltinKeywords::Grapefruit => "grapefruit"@,
            BuiltinKeywords::Grasshopper => "grasshopper"@,
            BuiltinKeywords::HeyGoogle => "hey google"@,
            BuiltinKeywords::HeySiri => "hey siri"@,
            BuiltinKeywords::Jarvis => "jarvis"@,
            BuiltinKeywords::OkGoogle => "ok google"@,
            BuiltinKeywords::Picovoice => "picovoice"@,
            BuiltinKeywords::Porcupine => "porcupine"@,
            BuiltinKeywords::Terminator => "terminator"@,
        }
    }

    /// The keyword a name stands for, if it stands for one.
    pub open spec fn spec_from_name(name: Seq<char>) -> Option<BuiltinKeywords> {
        if exists|k: BuiltinKeywords| k.spec_name() == name {
            Some(choose|k: BuiltinKeywords| k.spec_name() == name)
        } else {
            None
        }
    }

    /// The name of the keyword.
    pub fn to_str(&self) -> (s: &'static str)
        ensures
            s@ == self.spec_name(),
    {
        match self {
            BuiltinKeywords::Alexa => "alexa",
            BuiltinKeywords::Americano => "americano",
            BuiltinKeywords::Blueberry => "blueberry",
            BuiltinKeywords::Bumblebee => "bumblebee",
            BuiltinKeywords::Computer => "computer",
            BuiltinKeywords::Grapefruit => "grapefruit",
            BuiltinKeywords::Grasshopper => "grasshopper",
            BuiltinKeywords::HeyGoogle => "hey google",
            BuiltinKeywords::HeySiri => "hey siri",
            BuiltinKeywords::Jarvis => "jarvis",
            BuiltinKeywords::OkGoogle => "ok google",
            BuiltinKeywords::Picovoice => "picovoice",
            BuiltinKeywords::Porcupine => "porcupine",
            BuiltinKeywords::Terminator => "terminator",
        }
    }

    /// The names of all built-in keywords, in alphabetical order.
    pub fn options() -> (names: Vec<&'static str>)
        ensures
            names@.len() == all_keywords().len(),
            forall|i: int|
                0 <= i < names@.len() ==> (#[trigger] names@[i])@ == all_keywords()[i].spec_name(),
    {
        let mut names: Vec<&'static str> = Vec::new();
        names.push("alexa");
        names.push("americano");
        names.push("blueberry");
        names.push("bumblebee");
        names.push("computer");
        names.push("grapefruit");
        names.push("grasshopper");
        names.push("hey google");
        names.push("hey siri");
        names.push("jarvis");
        names.push("ok google");
        names.push("picovoice");
        names.push("porcupine");
        names.push("terminator");
        names
    }

    /// Reads a keyword from its name. Any other text is refused.
    pub fn from_str(s: &str) -> (r: Result<BuiltinKeywords, ()>)
        ensures
            r.ok() == Self::spec_from_name(s@),
            r matches Ok(k) ==> k.spec_name() == s@,
            r is Err ==> forall|k: BuiltinKeywords| k.spec_name() != s@,
    {
        let r = if str_eq(s, "alexa") {
            Ok(BuiltinKeywords::Alexa)
        } else if str_eq(s, "americano") {
            Ok(BuiltinKeywords::Americano)
        } else if str_eq(s, "blueberry") {
            Ok(BuiltinKeywords::Blueberry)
        } else if str_eq(s, "bumblebee") {
            Ok(BuiltinKeywords::Bumblebee)
        } else if str_eq(s, "computer") {
            Ok(BuiltinKeywords::Computer)
        } else if str_eq(s, "grapefruit") {
            Ok(BuiltinKeywords::Grapefruit)
        } else if str_eq(s, "grasshopper") {
            Ok(BuiltinKeywords::Grasshopper)
        } else if str_eq(s, "hey google") {
            Ok(BuiltinKeywords::HeyGoogle)
        } else if str_eq(s, "hey siri") {
            Ok(BuiltinKeywords::HeySiri)
        } else if str_eq(s, "jarvis") {
            Ok(BuiltinKeywords::Jarvis)
        } else if str_eq(s, "ok google") {
            Ok(BuiltinKeywords::OkGoogle)
        } else if str_eq(s, "picovoice") {
            Ok(BuiltinKeywords::Picovoice)
        } else if str_eq(s, "porcupine") {
            Ok(BuiltinKeywords::Porcupine)
        } else if str_eq(s, "terminator") {
            Ok(BuiltinKeywords::Terminator)
        } else {
            Err(())
        };
        proof {
            names_are_distinct();
            match r {
                Ok(k) => {
                    assert(k.spec_name() == s@);
                },
                Err(_) => {
                    assert forall|k: BuiltinKeywords| k.spec_name() != s@ by {
                        match k {
                            BuiltinKeywords::Alexa => {},
                            BuiltinKeywords::Americano => {},
                            BuiltinKeywords::Blueberry => {},
                            BuiltinKeywords::Bumblebee => {},
                            BuiltinKeywords::Computer => {},
                            BuiltinKeywords::Grapefruit => {},
                            BuiltinKeywords::Grasshopper => {},
                            BuiltinKeywords::HeyGoogle => {},
                            BuiltinKeywords::HeySiri => {},
                            BuiltinKeywords::Jarvis => {},
                            BuiltinKeywords::OkGoogle => {},
                            BuiltinKeywords::Picovoice => {},
                            BuiltinKeywords::Porcupine => {},
                            BuiltinKeywords::Terminator => {},
                        }
                    }
                },
            }
        }
        r
    }
}

/// No two keywords share a name.
pub proof fn names_are_distinct()
    ensures
        forall|a: BuiltinKeywords, b: BuiltinKeywords|
            a.spec_name() == b.spec_name() ==> a == b,
{
    reveal_strlit("alexa");
    reveal_strlit("americano");
    reveal_strlit("blueberry");
    reveal_strlit("bumblebee");
    reveal_strlit("computer");
    reveal_strlit("grapefruit");
    reveal_strlit("grasshopper");
    reveal_strlit("hey google");
    reveal_strlit("hey siri");
    reveal_strlit("jarvis");
    reveal_strlit("ok google");
    reveal_strlit("picovoice");
    reveal_strlit("porcupine");
    reveal_strlit("terminator");
    assert forall|a: BuiltinKeywords, b: BuiltinKeywords|
        a.spec_name() == b.spec_name() implies a == b by {
        let x = a.spec_name();
        let y = b.spec_name();
        assert(x.len() == y.len());
        assert(x[0] == y[0]);
        assert(x[1] == y[1]);
    }
}

/// Reading the name of a keyword gives that keyword back, and no text but
/// its name reads as a keyword.
pub proof fn name_round_trip(keyword: BuiltinKeywords, name: Seq<char>)
    ensures
        BuiltinKeywords::spec_from_name(keyword.spec_name()) == Some(keyword),
        BuiltinKeywords::spec_from_name(name) == Some(keyword) <==> keyword.spec_name() == name,
{
    names_are_distinct();
}

} // verus!
