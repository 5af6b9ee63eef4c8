//! The staged configuration of a detector.

use vstd::prelude::*;
use crate::catalog::KeywordCatalog;
use crate::config::{
    is_first_violation, is_valid_configuration, violation_error, Configuration, ConfigurationView,
    FilePresence, Violation,
};
use crate::engine::Opening;
use crate::error::PorcupineError;
use crate::keywords::BuiltinKeywords;
use crate::sensitivity::{copy_sensitivities, Sensitivity, DEFAULT_SENSITIVITY_BITS};
use crate::text::{clone_strings, texts};

verus! {

/// Collects the configuration of a detector piece by piece. Nothing is
/// checked and nothing native is touched until [`PorcupineBuilder::init`].
#[derive(Debug)]
pub struct PorcupineBuilder {
    config: Configuration,
}

impl View for PorcupineBuilder {
    type V = ConfigurationView;

    closed spec fn view(&self) -> ConfigurationView {
        self.config@
    }
}

/// The names of a list of keywords.
pub open spec fn keyword_names(keywords: Seq<BuiltinKeywords>) -> Seq<Seq<char>> {
    Seq::new(keywords.len(), |i: int| keywords[i].spec_name())
}

/// The paths a catalog holds for a list of keyword names.
pub open spec fn catalog_paths(catalog: Map<Seq<char>, Seq<char>>, names: Seq<Seq<char>>) -> Seq<
    Seq<char>,
> {
    Seq::new(names.len(), |i: int| catalog[names[i]])
}

/// As many default sensitivities as there are keywords.
pub open spec fn default_sensitivities(count: nat) -> Seq<Sensitivity> {
    Seq::new(count, |i: int| Sensitivity { bits: DEFAULT_SENSITIVITY_BITS })
}

fn defaults(count: usize) -> (all: Vec<Sensitivity>)
    ensures
        all@ == default_sensitivities(count as nat),
{
    let mut all: Vec<Sensitivity> = Vec::new();
    let mut i: usize = 0;
    while i < count
        invariant
            i <= count,
            all@.len() == i,
            forall|j: int|
                0 <= j < i ==> all@[j] == (Sensitivity { bits: DEFAULT_SENSITIVITY_BITS }),
        decreases count - i,
    {
        all.push(Sensitivity::default_value());
        i += 1;
    }
    assert(all@ =~= default_sensitivities(count as nat));
    all
}

impl PorcupineBuilder {
    /// A builder for built-in keywords. The keyword paths are those the
    /// catalog holds for the keywords, in the order given; every keyword
    /// gets the default sensitivity. The catalog has to hold every keyword.
    pub fn new_with_keywords(
        access_key: &str,
        keywords: &[BuiltinKeywords],
        catalog: &KeywordCatalog,
        library_path: &str,
        model_path: &str,
    ) -> (builder: PorcupineBuilder)
        requires
            forall|i: int|
                0 <= i < keywords@.len() ==> catalog@.contains_key(
                    (#[trigger] keywords@[i]).spec_name(),
                ),
        ensures
            builder@ == (ConfigurationView {
                access_key: access_key@,
                library_path: library_path@,
                model_path: model_path@,
                keyword_paths: catalog_paths(catalog@, keyword_names(keywords@)),
                sensitivities: default_sensitivities(keywords@.len()),
            }),
    {
        let mut keyword_paths: Vec<String> = Vec::new();
        let mut i: usize = 0;
        while i < keywords.len()
            invariant
                i <= keywords@.len(),
                keyword_paths@.len() == i,
                forall|j: int|
                    0 <= j < keywords@.len() ==> catalog@.contains_key(
                        (#[trigger] keywords@[j]).spec_name(),
                    ),
                forall|j: int|
                    0 <= j < i ==> keyword_paths@[j]@ == catalog@[keywords@[j].spec_name()],
            decreases keywords@.len() - i,
        {
            let keyword = keywords[i];
            match catalog.get(keyword.to_str()) {
                Some(path) => {
                    keyword_paths.push(path.clone());
                },
                None => {
                    assert(catalog@.contains_key(keywords@[i as int].spec_name()));
                    assert(false);
                },
            }
            i += 1;
        }
        assert(texts(keyword_paths@) =~= catalog_paths(catalog@, keyword_names(keywords@)));
        Self::new_with_keyword_paths(
            access_key,
            keyword_paths.as_slice(),
            library_path,
            model_path,
        )
    }

    /// A builder for keyword model files given by path. Every keyword gets
    /// the default sensitivity.
    pub fn new_with_keyword_paths(
        access_key: &str,
        keyword_paths: &[String],
        library_path: &str,
        model_path: &str,
    ) -> (builder: PorcupineBuilder)
        ensures
            builder@ == (ConfigurationView {
                access_key: access_key@,
                library_path: library_path@,
                model_path: model_path@,
                keyword_paths: texts(keyword_paths@),
                sensitivities: default_sensitivities(keyword_paths@.len()),
            }),
    {
        let sensitivities = defaults(keyword_paths.len());
        PorcupineBuilder {
            config: Configuration {
                access_key: String::from_str(access_key),
                library_path: String::from_str(library_path),
                model_path: String::from_str(model_path),
                keyword_paths: clone_strings(keyword_paths),
                sensitivities,
            },
        }
    }

    /// Replaces the access key.
    pub fn access_key(&mut self, access_key: &str) -> (builder: &mut Self)
        ensures
            builder@ == (ConfigurationView { access_key: access_key@, ..old(self)@ }),
            *final(self) == *final(builder),
    {
        self.config.access_key = String::from_str(access_key);
        self
    }

    /// Replaces the path of the native library.
    pub fn library_path(&mut self, library_path: &str) -> (builder: &mut Self)
        ensures
            builder@ == (ConfigurationView { library_path: library_path@, ..old(self)@ }),
            *final(self) == *final(builder),
    {
        self.config.library_path = String::from_str(library_path);
        self
    }

    /// Replaces the path of the model parameter file.
    pub fn model_path(&mut self, model_path: &str) -> (builder: &mut Self)
        ensures
            builder@ == (ConfigurationView { model_path: model_path@, ..old(self)@ }),
            *final(self) == *final(builder),
    {
        self.config.model_path = String::from_str(model_path);
        self
    }

    /// Replaces the keyword paths. The sensitivities stay as they are.
    pub fn keyword_paths(&mut self, keyword_paths: &[String]) -> (builder: &mut Self)
        ensures
            builder@ == (ConfigurationView {
                keyword_paths: texts(keyword_paths@),
                ..old(self)@
            }),
            *final(self) == *final(builder),
    {
        self.config.keyword_paths = clone_strings(keyword_paths);
        self
    }

    /// Replaces the sensitivities.
    pub fn sensitivities(&mut self, sensitivities: &[Sensitivity]) -> (builder: &mut Self)
        ensures
            builder@ == (ConfigurationView { sensitivities: sensitivities@, ..old(self)@ }),
            *final(self) == *final(builder),
    {
        let copied = copy_sensitivities(sensitivities);
        self.config.sensitivities = copied;
        self
    }

    /// The configuration as it stands.
    pub fn configuration(&self) -> (config: &Configuration)
        ensures
            config@ == self@,
    {
        &self.config
    }

    /// Begins the construction of the configured detector. The
    /// configuration is checked against what the file system says of its
    /// files; the first failed precondition is reported as an argument
    /// error, and then nothing is loaded and no native call is made. A
    /// valid configuration gives the first phase of construction.
    pub fn init(&self, files: &FilePresence) -> (r: Result<Opening, PorcupineError>)
        ensures
            r is Ok <==> is_valid_configuration(self@, *files),
            match r {
                Ok(opening) => opening@ == self@,
                Err(e) => exists|violation: Violation|
                    is_first_violation(self@, *files, violation) && e@ == violation_error(
                        self@,
                        violation,
                    ),
            },
    {
        let config = self.config.duplicate();
        assert(config@ == self@);
        Opening::begin(config, files)
    }
}

} // verus!
