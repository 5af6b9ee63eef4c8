//! The configuration of a detector and the checks it has to pass before
//! anything native is touched.

use vstd::prelude::*;
use crate::error::{PorcupineError, PorcupineErrorStatus, PorcupineErrorView};
use crate::sensitivity::{copy_sensitivities, in_unit_interval, Sensitivity};
use crate::text::{clone_strings, decimal, decimal_string, texts};

verus! {

/// Everything that decides which detector is built.
#[derive(Debug)]
pub struct Configuration {
    /// The credential handed to the native constructor.
    pub access_key: String,
    /// The path of the native library.
    pub library_path: String,
    /// The path of the model parameter file.
    pub model_path: String,
    /// The paths of the keyword model files, in detection-index order.
    pub keyword_paths: Vec<String>,
    /// One sensitivity for each keyword, in the same order.
    pub sensitivities: Vec<Sensitivity>,
}

/// The mathematical content of a [`Configuration`].
pub struct ConfigurationView {
    pub access_key: Seq<char>,
    pub library_path: Seq<char>,
    pub model_path: Seq<char>,
    pub keyword_paths: Seq<Seq<char>>,
    pub sensitivities: Seq<Sensitivity>,
}

impl View for Configuration {
    type V = ConfigurationView;

    open spec fn view(&self) -> ConfigurationView {
        ConfigurationView {
            access_key: self.access_key@,
            library_path: self.library_path@,
            model_path: self.model_path@,
            keyword_paths: texts(self.keyword_paths@),
            sensitivities: self.sensitivities@,
        }
    }
}

/// What the file system says of the files a configuration names.
#[derive(Debug)]
pub struct FilePresence {
    /// Whether the library file exists.
    pub library: bool,
    /// Whether the model parameter file exists.
    pub model: bool,
    /// For each keyword path, in order, whether the file exists. A keyword
    /// that the list does not reach counts as missing.
    pub keywords: Vec<bool>,
}

impl FilePresence {
    /// Whether the file of the keyword at `index` exists.
    pub open spec fn keyword_present(self, index: int) -> bool {
        0 <= index < self.keywords@.len() && self.keywords@[index]
    }
}

/// A precondition of construction that a configuration fails.
pub enum Violation {
    LibraryMissing,
    ModelMissing,
    NoKeywords,
    NoSensitivities,
    CountMismatch,
    KeywordMissing { index: int },
    SensitivityOutOfRange { index: int },
}

/// Whether a configuration passes every precondition of construction: the
/// library and the model exist, there is at least one keyword and as many
/// sensitivities as keywords, every keyword file exists, and every
/// sensitivity lies between zero and one.
pub open spec fn is_valid_configuration(config: ConfigurationView, files: FilePresence) -> bool {
    &&& files.library
    &&& files.model
    &&& config.keyword_paths.len() > 0
    &&& config.keyword_paths.len() == config.sensitivities.len()
    &&& forall|i: int| 0 <= i < config.keyword_paths.len() ==> files.keyword_present(i)
    &&& forall|i: int|
        0 <= i < config.sensitivities.len() ==> in_unit_interval(
            (#[trigger] config.sensitivities[i]).bits,
        )
}

/// Whether a configuration has at least one keyword, as many sensitivities
/// as keywords, and every sensitivity between zero and one: what a valid
/// configuration has whatever the file system says.
pub open spec fn is_well_shaped(config: ConfigurationView) -> bool {
    &&& config.keyword_paths.len() > 0
    &&& config.keyword_paths.len() == config.sensitivities.len()
    &&& forall|i: int|
        0 <= i < config.sensitivities.len() ==> in_unit_interval(
            (#[trigger] config.sensitivities[i]).bits,
        )
}

/// Whether `violation` is the first precondition the configuration fails,
/// in the order in which they are checked: library, model, keyword count,
/// sensitivity count, equal counts, keyword files in order, sensitivities
/// in order.
pub open spec fn is_first_violation(
    config: ConfigurationView,
    files: FilePresence,
    violation: Violation,
) -> bool {
    let keywords = config.keyword_paths.len();
    let sensitivities = config.sensitivities.len();
    match violation {
        Violation::LibraryMissing => !files.library,
        Violation::ModelMissing => files.library && !files.model,
        Violation::NoKeywords => files.library && files.model && keywords == 0,
        Violation::NoSensitivities => files.library && files.model && keywords > 0
            && sensitivities == 0,
        Violation::CountMismatch => files.library && files.model && keywords > 0 && sensitivities
            > 0 && keywords != sensitivities,
        Violation::KeywordMissing { index } => {
            &&& files.library && files.model && keywords > 0 && keywords == sensitivities
            &&& 0 <= index < keywords
            &&& !files.keyword_present(index)
            &&& forall|j: int| 0 <= j < index ==> files.keyword_present(j)
        },
        Violation::SensitivityOutOfRange { index } => {
            &&& files.library && files.model && keywords > 0 && keywords == sensitivities
            &&& forall|j: int| 0 <= j < keywords ==> files.keyword_present(j)
            &&& 0 <= index < sensitivities
            &&& !in_unit_interval(config.sensitivities[index].bits)
            &&& forall|j: int|
                0 <= j < index ==> in_unit_interval((#[trigger] config.sensitivities[j]).bits)
        },
    }
}

/// What is said of a failed precondition.
pub open spec fn violation_message(config: ConfigurationView, violation: Violation) -> Seq<char> {
    match violation {
        Violation::LibraryMissing => "Couldn't find Porcupine's dynamic library at "@
            + config.library_path,
        Violation::ModelMissing => "Couldn't find model file at "@ + config.model_path,
        Violation::NoKeywords => "Keywords should be length of at least one"@,
        Violation::NoSensitivities => "Sensitivities should be length of at least one"@,
        Violation::CountMismatch => "Number of keywords ("@ + decimal(config.keyword_paths.len())
            + ") does not match the number of sensitivities ("@ + decimal(
            config.sensitivities.len(),
        ) + ")"@,
        Violation::KeywordMissing { index } => "Couldn't find keyword file at "@
            + config.keyword_paths[index],
        Violation::SensitivityOutOfRange { index } => "Sensitivity value at position "@ + decimal(
            index as nat,
        ) + " should be within [0, 1]"@,
    }
}

/// The error that reports a failed precondition.
pub open spec fn violation_error(
    config: ConfigurationView,
    violation: Violation,
) -> PorcupineErrorView {
    PorcupineErrorView {
        status: PorcupineErrorStatus::ArgumentError,
        message: violation_message(config, violation),
        message_stack: Seq::empty(),
    }
}

/// A configuration is valid exactly when it fails no precondition.
pub proof fn valid_means_no_violation(config: ConfigurationView, files: FilePresence)
    ensures
        is_valid_configuration(config, files) <==> forall|violation: Violation|
            !is_first_violation(config, files, violation),
{
    if is_valid_configuration(config, files) {
        assert forall|violation: Violation| !is_first_violation(config, files, violation) by {
            match violation {
                Violation::SensitivityOutOfRange { index } => {
                    if 0 <= index < config.sensitivities.len() {
                        assert(in_unit_interval(config.sensitivities[index].bits));
                    }
                },
                _ => {},
            }
        }
    } else {
        let violation = first_violation_of(config, files);
        assert(is_first_violation(config, files, violation));
    }
}

/// An invalid configuration has a first failed precondition.
pub proof fn first_violation_of(config: ConfigurationView, files: FilePresence) -> (violation:
    Violation)
    requires
        !is_valid_configuration(config, files),
    ensures
        is_first_violation(config, files, violation),
{
    let keywords = config.keyword_paths.len() as int;
    let sensitivities = config.sensitivities.len() as int;
    if !files.library {
        Violation::LibraryMissing
    } else if !files.model {
        Violation::ModelMissing
    } else if keywords == 0 {
        Violation::NoKeywords
    } else if sensitivities == 0 {
        Violation::NoSensitivities
    } else if keywords != sensitivities {
        Violation::CountMismatch
    } else if exists|i: int| 0 <= i < keywords && !files.keyword_present(i) {
        let missing = |i: int| !files.keyword_present(i);
        let witness = choose|i: int| 0 <= i < keywords && !files.keyword_present(i);
        assert(missing(witness));
        let index = least(keywords, missing);
        assert forall|j: int| 0 <= j < index implies files.keyword_present(j) by {
            assert(!missing(j));
        }
        Violation::KeywordMissing { index }
    } else {
        let bad = |i: int| !in_unit_interval(config.sensitivities[i].bits);
        let witness = choose|i: int|
            0 <= i < sensitivities && !in_unit_interval(
                (#[trigger] config.sensitivities[i]).bits,
            );
        assert(bad(witness));
        let index = least(sensitivities, bad);
        assert forall|j: int| 0 <= j < index implies in_unit_interval(
            (#[trigger] config.sensitivities[j]).bits,
        ) by {
            assert(!bad(j));
        }
        assert(forall|j: int| 0 <= j < keywords ==> files.keyword_present(j));
        Violation::SensitivityOutOfRange { index }
    }
}

proof fn least(bound: int, holds: spec_fn(int) -> bool) -> (index: int)
    requires
        exists|i: int| 0 <= i < bound && #[trigger] holds(i),
    ensures
        0 <= index < bound,
        holds(index),
        forall|j: int| 0 <= j < index ==> !#[trigger] holds(j),
    decreases bound,
{
    let witness = choose|i: int| 0 <= i < bound && #[trigger] holds(i);
    if exists|i: int| 0 <= i < bound - 1 && #[trigger] holds(i) {
        least(bound - 1, holds)
    } else {
        assert(witness == bound - 1);
        bound - 1
    }
}

/// A configuration fails at most one precondition first.
pub proof fn first_violation_is_unique(
    config: ConfigurationView,
    files: FilePresence,
    a: Violation,
    b: Violation,
)
    requires
        is_first_violation(config, files, a),
        is_first_violation(config, files, b),
    ensures
        a == b,
{
    match (a, b) {
        (Violation::KeywordMissing { index: i }, Violation::KeywordMissing { index: j }) => {
            if i < j {
                assert(files.keyword_present(i));
            } else if j < i {
                assert(files.keyword_present(j));
            }
        },
        (
            Violation::SensitivityOutOfRange { index: i },
            Violation::SensitivityOutOfRange { index: j },
        ) => {
            if i < j {
                assert(in_unit_interval(config.sensitivities[i].bits));
            } else if j < i {
                assert(in_unit_interval(config.sensitivities[j].bits));
            }
        },
        (Violation::KeywordMissing { index: i }, Violation::SensitivityOutOfRange { .. }) => {
            assert(files.keyword_present(i));
        },
        (Violation::SensitivityOutOfRange { .. }, Violation::KeywordMissing { index: j }) => {
            assert(files.keyword_present(j));
        },
        _ => {},
    }
}

/// A configuration with a sensitivity outside the interval from zero to
/// one is not valid, whatever else it holds: it fails a precondition, and
/// what reports the failure is an argument error.
pub proof fn out_of_range_sensitivity_is_refused(
    config: ConfigurationView,
    files: FilePresence,
    index: int,
)
    requires
        0 <= index < config.sensitivities.len(),
        !in_unit_interval(config.sensitivities[index].bits),
    ensures
        !is_valid_configuration(config, files),
        exists|violation: Violation|
            is_first_violation(config, files, violation) && violation_error(
                config,
                violation,
            ).status == PorcupineErrorStatus::ArgumentError,
{
    let violation = first_violation_of(config, files);
    assert(violation_error(config, violation).status == PorcupineErrorStatus::ArgumentError);
}

/// A configuration with other counts of keywords and of sensitivities is
/// not valid, whatever the file system says.
pub proof fn unequal_counts_are_refused(config: ConfigurationView, files: FilePresence)
    requires
        config.keyword_paths.len() != config.sensitivities.len(),
    ensures
        !is_valid_configuration(config, files),
        exists|violation: Violation|
            is_first_violation(config, files, violation) && violation_error(
                config,
                violation,
            ).status == PorcupineErrorStatus::ArgumentError,
{
    let violation = first_violation_of(config, files);
    assert(violation_error(config, violation).status == PorcupineErrorStatus::ArgumentError);
}

impl Configuration {
    /// A copy of the configuration.
    pub fn duplicate(&self) -> (copy: Configuration)
        ensures
            copy@ == self@,
    {
        let sensitivities = copy_sensitivities(self.sensitivities.as_slice());
        Configuration {
            access_key: self.access_key.clone(),
            library_path: self.library_path.clone(),
            model_path: self.model_path.clone(),
            keyword_paths: clone_strings(self.keyword_paths.as_slice()),
            sensitivities,
        }
    }

    /// Checks the preconditions of construction, in order. The first one
    /// that fails decides the error; nothing native is touched.
    pub fn validate(&self, files: &FilePresence) -> (r: Result<(), PorcupineError>)
        ensures
            match r {
                Ok(()) => is_valid_configuration(self@, *files),
                Err(e) => exists|violation: Violation|
                    is_first_violation(self@, *files, violation) && e@ == violation_error(
                        self@,
                        violation,
                    ),
            },
    {
        if !files.library {
            let mut message = String::from_str("Couldn't find Porcupine's dynamic library at ");
            message.append(self.library_path.as_str());
            let e = PorcupineError::new(PorcupineErrorStatus::ArgumentError, message.as_str());
            proof {
                let v = Violation::LibraryMissing;
                assert(is_first_violation(self@, *files, v));
                assert(e@ =~= violation_error(self@, v));
            }
            return Err(e);
        }
        if !files.model {
            let mut message = String::from_str("Couldn't find model file at ");
            message.append(self.model_path.as_str());
            let e = PorcupineError::new(PorcupineErrorStatus::ArgumentError, message.as_str());
            proof {
                let v = Violation::ModelMissing;
                assert(is_first_violation(self@, *files, v));
                assert(e@ =~= violation_error(self@, v));
            }
            return Err(e);
        }
        let keywords = self.keyword_paths.len();
        let sensitivities = self.sensitivities.len();
        if keywords == 0 {
            let e = PorcupineError::new(
                PorcupineErrorStatus::ArgumentError,
                "Keywords should be length of at least one",
            );
            proof {
                let v = Violation::NoKeywords;
                assert(is_first_violation(self@, *files, v));
                assert(e@ =~= violation_error(self@, v));
            }
            return Err(e);
        }
        if sensitivities == 0 {
            let e = PorcupineError::new(
                PorcupineErrorStatus::ArgumentError,
                "Sensitivities should be length of at least one",
            );
            proof {
                let v = Violation::NoSensitivities;
                assert(is_first_violation(self@, *files, v));
                assert(e@ =~= violation_error(self@, v));
            }
            return Err(e);
        }
        if keywords != sensitivities {
            let mut message = String::from_str("Number of keywords (");
            message.append(decimal_string(keywords as u64).as_str());
            message.append(") does not match the number of sensitivities (");
            message.append(decimal_string(sensitivities as u64).as_str());
            message.append(")");
            let e = PorcupineError::new(PorcupineErrorStatus::ArgumentError, message.as_str());
            proof {
                let v = Violation::CountMismatch;
                assert(is_first_violation(self@, *files, v));
                assert(e@ =~= violation_error(self@, v));
            }
            return Err(e);
        }
        let mut i: usize = 0;
        while i < keywords
            invariant
                files.library,
                files.model,
                keywords > 0,
                keywords == self.keyword_paths@.len(),
                keywords == self.sensitivities@.len(),
                i <= keywords,
                forall|j: int| 0 <= j < i ==> files.keyword_present(j),
            decreases keywords - i,
        {
            if i >= files.keywords.len() || !files.keywords[i] {
                let mut message = String::from_str("Couldn't find keyword file at ");
                message.append(self.keyword_paths[i].as_str());
                let e = PorcupineError::new(PorcupineErrorStatus::ArgumentError, message.as_str());
                proof {
                    let v = Violation::KeywordMissing { index: i as int };
                    assert(is_first_violation(self@, *files, v));
                    assert(self@.keyword_paths[i as int] == self.keyword_paths@[i as int]@);
                    assert(e@ =~= violation_error(self@, v));
                }
                return Err(e);
            }
            i += 1;
        }
        let mut k: usize = 0;
        while k < sensitivities
            invariant
                files.library,
                files.model,
                sensitivities > 0,
                sensitivities == self.keyword_paths@.len(),
                sensitivities == self.sensitivities@.len(),
                forall|j: int| 0 <= j < sensitivities ==> files.keyword_present(j),
                k <= sensitivities,
                forall|j: int|
                    0 <= j < k ==> in_unit_interval((#[trigger] self.sensitivities@[j]).bits),
            decreases sensitivities - k,
        {
            if !self.sensitivities[k].is_valid() {
                let mut message = String::from_str("Sensitivity value at position ");
                message.append(decimal_string(k as u64).as_str());
                message.append(" should be within [0, 1]");
                let e = PorcupineError::new(PorcupineErrorStatus::ArgumentError, message.as_str());
                proof {
                    let v = Violation::SensitivityOutOfRange { index: k as int };
                    assert(is_first_violation(self@, *files, v));
                    assert(e@ =~= violation_error(self@, v));
                }
                return Err(e);
            }
            k += 1;
        }
        Ok(())
    }
}

} // verus!
