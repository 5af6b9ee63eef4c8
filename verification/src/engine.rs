//! The life of a detector, from a checked configuration to a ready engine
//! and through each frame it classifies.
//!
//! Nothing here touches the native library. Each phase is a value that
//! stands for one pending native call: it hands out what the call needs,
//! and is consumed by the outcome of the call, which gives the next phase
//! or the error. A phase can only be had from the one before it, so the
//! calls can only be made in their order, and a failed step leaves nothing
//! to go on with.

use std::sync::Arc;
use vstd::prelude::*;
use vstd::utf8::*;
use crate::config::{
    is_first_violation, is_valid_configuration, is_well_shaped, valid_means_no_violation,
    violation_error, Configuration, ConfigurationView, FilePresence, Violation,
};
use crate::error::{PorcupineError, PorcupineErrorStatus, PorcupineErrorView};
use crate::marshal::{
    byte_strings, is_native_string, native_string, native_string_has_its_shape, native_strings,
    nul_complaint, nul_error, paths_to_cstrings, pathbuf_to_cstring, to_native_string,
};
use crate::sensitivity::{copy_sensitivities, in_unit_interval, Sensitivity};
use crate::status::PvStatus;
use crate::text::{
    clone_strings, decimal, decimal_string, first_at, occurs_at, occurs_in, signed_decimal,
    signed_decimal_string, texts,
};

verus! {

/// How many entry points the native library has to export.
pub const SYMBOL_COUNT: usize = 9;

/// The names of the entry points, in the order in which they are resolved.
pub open spec fn symbol_names() -> Seq<Seq<char>> {
    seq![
        "pv_porcupine_init"@,
        "pv_porcupine_delete"@,
        "pv_porcupine_process"@,
        "pv_sample_rate"@,
        "pv_porcupine_frame_length"@,
        "pv_porcupine_version"@,
        "pv_get_error_stack"@,
        "pv_free_error_stack"@,
        "pv_set_sdk"@,
    ]
}

/// The tag by which this binding announces itself, as a native string.
pub open spec fn sdk_tag() -> Seq<u8> {
    seq![114u8, 117u8, 115u8, 116u8, 0u8]
}

/// The tag is the native string of the word `rust`.
pub proof fn sdk_tag_is_rust()
    ensures
        native_string("rust"@) == Some(sdk_tag()),
{
    reveal_strlit("rust");
    let word = "rust"@;
    assert(is_ascii_chars(word));
    is_ascii_chars_encode_utf8(word);
    let bytes = encode_utf8(word);
    assert(bytes =~= seq![114u8, 117u8, 115u8, 116u8]) by {
        assert(bytes[0] == word[0] as u8);
        assert(bytes[1] == word[1] as u8);
        assert(bytes[2] == word[2] as u8);
        assert(bytes[3] == word[3] as u8);
    }
    assert(bytes.push(0u8) =~= sdk_tag());
    assert(!bytes.contains(0u8));
}

/// The error for a library that the loader refused: it names the path and
/// gives the loader's words.
pub open spec fn library_load_error(path: Seq<char>, reason: Seq<char>) -> PorcupineErrorView {
    PorcupineErrorView {
        status: PorcupineErrorStatus::LibraryLoadError,
        message: "Failed to load porcupine dynamic library "@ + path + ": "@ + reason,
        message_stack: Seq::empty(),
    }
}

/// The error for an entry point that the library does not export: it names
/// the entry point and gives the loader's words.
pub open spec fn symbol_load_error(name: Seq<char>, reason: Seq<char>) -> PorcupineErrorView {
    PorcupineErrorView {
        status: PorcupineErrorStatus::LibraryLoadError,
        message: "Failed to load function symbol "@ + name + " from porcupine library: "@
            + reason,
        message_stack: Seq::empty(),
    }
}

/// A load error names the path of the library that could not be opened.
pub proof fn load_error_names_the_path(path: Seq<char>, reason: Seq<char>)
    ensures
        occurs_in(library_load_error(path, reason).message, path),
        library_load_error(path, reason).status == PorcupineErrorStatus::LibraryLoadError,
{
    let before = "Failed to load porcupine dynamic library "@;
    let message = library_load_error(path, reason).message;
    let start = before.len() as int;
    assert(message.subrange(start, start + path.len()) =~= path);
    assert(occurs_at(message, path, start));
}

/// A load error names the entry point that could not be resolved.
pub proof fn load_error_names_the_symbol(name: Seq<char>, reason: Seq<char>)
    ensures
        occurs_in(symbol_load_error(name, reason).message, name),
        symbol_load_error(name, reason).status == PorcupineErrorStatus::LibraryLoadError,
{
    let before = "Failed to load function symbol "@;
    let message = symbol_load_error(name, reason).message;
    let start = before.len() as int;
    assert(message.subrange(start, start + name.len()) =~= name);
    assert(occurs_at(message, name, start));
}

/// The error for a native call that failed, given the status of the call,
/// the status of the retrieval of the diagnostics, and the diagnostics.
/// Where the retrieval failed, its status is reported and no diagnostics.
pub open spec fn call_error(
    function_name: Seq<char>,
    status: PvStatus,
    stack_status: PvStatus,
    messages: Seq<Seq<char>>,
) -> PorcupineErrorView {
    if stack_status != PvStatus::SUCCESS {
        PorcupineErrorView {
            status: PorcupineErrorStatus::LibraryError(stack_status),
            message: "Unable to get Porcupine error state"@,
            message_stack: Seq::empty(),
        }
    } else {
        PorcupineErrorView {
            status: PorcupineErrorStatus::LibraryError(status),
            message: "'"@ + function_name + "' failed"@,
            message_stack: messages,
        }
    }
}

/// The error for a frame of the wrong length.
pub open spec fn frame_length_error(found: nat, expected: int) -> PorcupineErrorView {
    PorcupineErrorView {
        status: PorcupineErrorStatus::FrameLengthError,
        message: "Found a frame length of "@ + decimal(found) + " Expected "@ + signed_decimal(
            expected,
        ),
        message_stack: Seq::empty(),
    }
}

/// What the native constructor is called with.
#[derive(Debug)]
pub struct InitArguments {
    /// The credential, as a native string.
    pub access_key: Vec<u8>,
    /// The path of the model parameter file, as a native string.
    pub model_path: Vec<u8>,
    /// The number of keywords, as the native side counts them.
    pub num_keywords: i32,
    /// The paths of the keyword model files, as native strings.
    pub keyword_paths: Vec<Vec<u8>>,
    /// The sensitivities, one for each keyword.
    pub sensitivities: Vec<Sensitivity>,
}

/// The mathematical content of [`InitArguments`].
pub struct InitArgumentsView {
    pub access_key: Seq<u8>,
    pub model_path: Seq<u8>,
    pub num_keywords: i32,
    pub keyword_paths: Seq<Seq<u8>>,
    pub sensitivities: Seq<Sensitivity>,
}

impl View for InitArguments {
    type V = InitArgumentsView;

    open spec fn view(&self) -> InitArgumentsView {
        InitArgumentsView {
            access_key: self.access_key@,
            model_path: self.model_path@,
            num_keywords: self.num_keywords,
            keyword_paths: byte_strings(self.keyword_paths@),
            sensitivities: self.sensitivities@,
        }
    }
}

/// Whether the arguments can be handed to the native constructor as they
/// are: every string ends with its only zero byte, there is at least one
/// keyword, there are as many sensitivities as keyword paths, the count is
/// their number cut to 32 bits, and every sensitivity lies between zero
/// and one.
pub open spec fn are_sound_arguments(arguments: InitArgumentsView) -> bool {
    &&& is_native_string(arguments.access_key)
    &&& is_native_string(arguments.model_path)
    &&& forall|i: int|
        0 <= i < arguments.keyword_paths.len() ==> is_native_string(
            #[trigger] arguments.keyword_paths[i],
        )
    &&& arguments.keyword_paths.len() > 0
    &&& arguments.keyword_paths.len() == arguments.sensitivities.len()
    &&& arguments.num_keywords == arguments.keyword_paths.len() as i32
    &&& forall|i: int|
        0 <= i < arguments.sensitivities.len() ==> in_unit_interval(
            (#[trigger] arguments.sensitivities[i]).bits,
        )
}

/// The arguments made from a well-shaped configuration are sound.
pub proof fn marshaled_arguments_are_sound(config: ConfigurationView)
    requires
        is_well_shaped(config),
        is_marshalable(config),
    ensures
        are_sound_arguments(marshaled(config)),
{
    let arguments = marshaled(config);
    native_string_has_its_shape(config.access_key);
    native_string_has_its_shape(config.model_path);
    assert forall|i: int| 0 <= i < arguments.keyword_paths.len() implies is_native_string(
        #[trigger] arguments.keyword_paths[i],
    ) by {
        assert(native_string(config.keyword_paths[i]) is Some);
        native_string_has_its_shape(config.keyword_paths[i]);
    }
}

/// Whether every text of a configuration has a native string.
pub open spec fn is_marshalable(config: ConfigurationView) -> bool {
    &&& native_string(config.access_key) is Some
    &&& native_string(config.model_path) is Some
    &&& native_strings(config.keyword_paths) is Some
}

/// The arguments of the native constructor for a configuration whose texts
/// all have native strings.
pub open spec fn marshaled(config: ConfigurationView) -> InitArgumentsView
    recommends
        is_marshalable(config),
{
    InitArgumentsView {
        access_key: native_string(config.access_key)->0,
        model_path: native_string(config.model_path)->0,
        num_keywords: config.keyword_paths.len() as i32,
        keyword_paths: native_strings(config.keyword_paths)->0,
        sensitivities: config.sensitivities,
    }
}

/// Whether `e` reports the first text of the configuration that has no
/// native string: the access key, then the model path, then the keyword
/// paths in order.
pub open spec fn is_marshal_error(config: ConfigurationView, e: PorcupineErrorView) -> bool {
    &&& e.status == PorcupineErrorStatus::ArgumentError
    &&& e.message_stack.len() == 0
    &&& if native_string(config.access_key) is None {
        exists|position: nat|
            first_at(encode_utf8(config.access_key), 0u8, position as int) && e.message
                == nul_complaint("AccessKey"@, position)
    } else if native_string(config.model_path) is None {
        exists|position: nat|
            first_at(encode_utf8(config.model_path), 0u8, position as int) && e.message
                == nul_complaint("Path"@, position)
    } else {
        exists|k: int, position: nat|
            {
                &&& 0 <= k < config.keyword_paths.len()
                &&& forall|j: int|
                    0 <= j < k ==> (#[trigger] native_string(config.keyword_paths[j])) is Some
                &&& first_at(encode_utf8(config.keyword_paths[k]), 0u8, position as int)
                &&& e.message == nul_complaint("Path"@, position)
            }
    }
}

/// Turns the texts of a configuration into the arguments of the native
/// constructor. The first text without a native string decides the error.
pub fn marshal(config: &Configuration) -> (r: Result<InitArguments, PorcupineError>)
    ensures
        match r {
            Ok(arguments) => is_marshalable(config@) && arguments@ == marshaled(config@),
            Err(e) => !is_marshalable(config@) && is_marshal_error(config@, e@),
        },
{
    let access_key = match to_native_string(config.access_key.as_str()) {
        Ok(bytes) => bytes,
        Err(position) => {
            return Err(nul_error("AccessKey", position));
        },
    };
    let model_path = match pathbuf_to_cstring(config.model_path.as_str()) {
        Ok(bytes) => bytes,
        Err(e) => {
            return Err(e);
        },
    };
    let keyword_paths = match paths_to_cstrings(&config.keyword_paths) {
        Ok(all) => all,
        Err(e) => {
            return Err(e);
        },
    };
    let sensitivities = copy_sensitivities(config.sensitivities.as_slice());
    let num_keywords = #[verifier::truncate]
    (config.keyword_paths.len() as i32);
    Ok(InitArguments { access_key, model_path, num_keywords, keyword_paths, sensitivities })
}

/// Turns the outcome of looking up the entry point `function_name` into
/// the binding's own error: nothing on success, the loader's words on
/// failure.
pub fn load_library_fn(function_name: &str, outcome: Result<(), String>) -> (r: Result<
    (),
    PorcupineError,
>)
    ensures
        match r {
            Ok(()) => outcome is Ok,
            Err(e) => outcome matches Err(reason) && e@ == symbol_load_error(
                function_name@,
                reason@,
            ),
        },
{
    match outcome {
        Ok(()) => Ok(()),
        Err(reason) => {
            let mut message = String::from_str("Failed to load function symbol ");
            message.append(function_name);
            message.append(" from porcupine library: ");
            message.append(reason.as_str());
            let e = PorcupineError::new(PorcupineErrorStatus::LibraryLoadError, message.as_str());
            assert(e@ =~= symbol_load_error(function_name@, reason@));
            Err(e)
        },
    }
}

/// The first phase: the configuration has passed its checks and the
/// library is to be opened.
#[derive(Debug)]
pub struct Opening {
    config: Configuration,
}

impl View for Opening {
    type V = ConfigurationView;

    closed spec fn view(&self) -> ConfigurationView {
        self.config@
    }
}

impl Opening {
    #[verifier::type_invariant]
    spec fn well_formed(self) -> bool {
        is_well_shaped(self.config@)
    }

    /// The path of the library to open.
    pub fn library_path(&self) -> (path: &str)
        ensures
            path@ == self@.library_path,
    {
        self.config.library_path.as_str()
    }

    /// Takes the outcome of opening the library: nothing on success, the
    /// loader's words on failure. On success the entry points are to be
    /// resolved; on failure nothing is resolved.
    pub fn opened(self, outcome: Result<(), String>) -> (r: Result<
        PorcupineInnerVTable,
        PorcupineError,
    >)
        ensures
            match r {
                Ok(table) => outcome is Ok && table@ == (VTableView {
                    config: self@,
                    resolved: 0,
                }),
                Err(e) => outcome matches Err(reason) && e@ == library_load_error(
                    self@.library_path,
                    reason@,
                ),
            },
    {
        proof {
            use_type_invariant(&self);
        }
        match outcome {
            Ok(()) => Ok(PorcupineInnerVTable::new(self)),
            Err(reason) => {
                let mut message = String::from_str("Failed to load porcupine dynamic library ");
                message.append(self.config.library_path.as_str());
                message.append(": ");
                message.append(reason.as_str());
                let e = PorcupineError::new(
                    PorcupineErrorStatus::LibraryLoadError,
                    message.as_str(),
                );
                assert(e@ =~= library_load_error(self@.library_path, reason@));
                Err(e)
            },
        }
    }
}

/// The table of entry points while it is being filled: the entry points
/// are resolved once, one after the other, in the order of
/// [`symbol_names`].
#[derive(Debug)]
pub struct PorcupineInnerVTable {
    config: Configuration,
    resolved: usize,
}

/// The mathematical content of a [`PorcupineInnerVTable`].
pub struct VTableView {
    /// The configuration the table is filled for.
    pub config: ConfigurationView,
    /// How many entry points have been resolved.
    pub resolved: nat,
}

impl View for PorcupineInnerVTable {
    type V = VTableView;

    closed spec fn view(&self) -> VTableView {
        VTableView { config: self.config@, resolved: self.resolved as nat }
    }
}

/// What follows the resolution of one entry point.
#[derive(Debug)]
pub enum Resolution {
    /// Another entry point is to be resolved.
    More(PorcupineInnerVTable),
    /// The table is complete; the binding is to announce itself.
    Complete(Announcing),
}

impl PorcupineInnerVTable {
    #[verifier::type_invariant]
    spec fn well_formed(self) -> bool {
        self.resolved < SYMBOL_COUNT && is_well_shaped(self.config@)
    }

    /// The empty table for a library that has just been opened.
    pub fn new(opening: Opening) -> (table: PorcupineInnerVTable)
        ensures
            table@ == (VTableView { config: opening@, resolved: 0 }),
    {
        proof {
            use_type_invariant(&opening);
        }
        PorcupineInnerVTable { config: opening.config, resolved: 0 }
    }

    /// The name of the entry point to resolve next.
    pub fn symbol(&self) -> (name: &'static str)
        ensures
            self@.resolved < symbol_names().len(),
            name@ == symbol_names()[self@.resolved as int],
    {
        proof {
            use_type_invariant(self);
        }
        match self.resolved {
            0 => "pv_porcupine_init",
            1 => "pv_porcupine_delete",
            2 => "pv_porcupine_process",
            3 => "pv_sample_rate",
            4 => "pv_porcupine_frame_length",
            5 => "pv_porcupine_version",
            6 => "pv_get_error_stack",
            7 => "pv_free_error_stack",
            _ => "pv_set_sdk",
        }
    }

    /// Takes the outcome of resolving the pending entry point: nothing on
    /// success, the loader's words on failure. A failure ends construction.
    /// After the last entry point the arguments of the native constructor
    /// are made ready, and a text without a native string ends construction.
    pub fn resolved(self, outcome: Result<(), String>) -> (r: Result<Resolution, PorcupineError>)
        ensures
            match r {
                Ok(Resolution::More(table)) => {
                    &&& outcome is Ok
                    &&& self@.resolved + 1 < symbol_names().len()
                    &&& table@ == (VTableView {
                        config: self@.config,
                        resolved: self@.resolved + 1,
                    })
                },
                Ok(Resolution::Complete(announcing)) => {
                    &&& outcome is Ok
                    &&& self@.resolved + 1 == symbol_names().len()
                    &&& is_marshalable(self@.config)
                    &&& announcing@ == marshaled(self@.config)
                },
                Err(e) => match outcome {
                    Err(reason) => self@.resolved < symbol_names().len() && e@
                        == symbol_load_error(symbol_names()[self@.resolved as int], reason@),
                    Ok(()) => {
                        &&& self@.resolved + 1 == symbol_names().len()
                        &&& !is_marshalable(self@.config)
                        &&& is_marshal_error(self@.config, e@)
                    },
                },
            },
    {
        proof {
            use_type_invariant(&self);
        }
        match load_library_fn(self.symbol(), outcome) {
            Err(e) => Err(e),
            Ok(()) => {
                if self.resolved + 1 < SYMBOL_COUNT {
                    Ok(
                        Resolution::More(
                            PorcupineInnerVTable {
                                config: self.config,
                                resolved: self.resolved + 1,
                            },
                        ),
                    )
                } else {
                    match marshal(&self.config) {
                        Ok(arguments) => {
                            proof {
                                marshaled_arguments_are_sound(self.config@);
                            }
                            Ok(Resolution::Complete(Announcing { arguments }))
                        },
                        Err(e) => Err(e),
                    }
                }
            },
        }
    }
}

/// The phase in which the binding announces itself to the library, before
/// the native constructor is called.
#[derive(Debug)]
pub struct Announcing {
    arguments: InitArguments,
}

impl View for Announcing {
    type V = InitArgumentsView;

    closed spec fn view(&self) -> InitArgumentsView {
        self.arguments@
    }
}

impl Announcing {
    #[verifier::type_invariant]
    spec fn well_formed(self) -> bool {
        are_sound_arguments(self.arguments@)
    }

    /// The tag to announce, as a native string.
    pub fn sdk(&self) -> (tag: Vec<u8>)
        ensures
            tag@ == sdk_tag(),
    {
        let mut tag: Vec<u8> = Vec::new();
        tag.push(114u8);
        tag.push(117u8);
        tag.push(115u8);
        tag.push(116u8);
        tag.push(0u8);
        assert(tag@ =~= sdk_tag());
        tag
    }

    /// Takes note that the tag was announced. The announcement has no
    /// outcome; the native constructor is to be called next.
    pub fn announced(self) -> (constructing: Constructing)
        ensures
            constructing@ == self@,
    {
        proof {
            use_type_invariant(&self);
        }
        Constructing { arguments: self.arguments }
    }
}

/// The phase in which the native constructor is called.
#[derive(Debug)]
pub struct Constructing {
    arguments: InitArguments,
}

impl View for Constructing {
    type V = InitArgumentsView;

    closed spec fn view(&self) -> InitArgumentsView {
        self.arguments@
    }
}

impl Constructing {
    #[verifier::type_invariant]
    spec fn well_formed(self) -> bool {
        are_sound_arguments(self.arguments@)
    }

    /// What the native constructor is to be called with.
    pub fn arguments(&self) -> (arguments: &InitArguments)
        ensures
            arguments@ == self@,
            are_sound_arguments(arguments@),
    {
        proof {
            use_type_invariant(self);
        }
        &self.arguments
    }

    /// Takes the status the native constructor returned. On success the
    /// engine is to be asked for its fixed properties; otherwise the
    /// diagnostics are to be retrieved.
    pub fn constructed(self, status: PvStatus) -> (r: Result<Describing, Diagnosing>)
        ensures
            match r {
                Ok(_) => status == PvStatus::SUCCESS,
                Err(diagnosing) => status != PvStatus::SUCCESS && diagnosing@ == (DiagnosingView {
                    status,
                    function_name: "pv_porcupine_init"@,
                }),
            },
    {
        match check_fn_call_status(status, "pv_porcupine_init") {
            Ok(()) => Ok(Describing { }),
            Err(diagnosing) => Err(diagnosing),
        }
    }
}

/// Checks the status a native call returned. Any status but success asks
/// for the diagnostics of the native side.
pub fn check_fn_call_status(status: PvStatus, function_name: &str) -> (r: Result<(), Diagnosing>)
    ensures
        match r {
            Ok(()) => status == PvStatus::SUCCESS,
            Err(diagnosing) => status != PvStatus::SUCCESS && diagnosing@ == (DiagnosingView {
                status,
                function_name: function_name@,
            }),
        },
{
    if status.is_success() {
        Ok(())
    } else {
        Err(Diagnosing { status, function_name: String::from_str(function_name) })
    }
}

/// The phase after a failed native call, in which the diagnostics of the
/// native side are retrieved.
#[derive(Debug)]
pub struct Diagnosing {
    status: PvStatus,
    function_name: String,
}

/// The mathematical content of a [`Diagnosing`].
pub struct DiagnosingView {
    /// The status of the call that failed.
    pub status: PvStatus,
    /// The name of the native function that failed.
    pub function_name: Seq<char>,
}

impl View for Diagnosing {
    type V = DiagnosingView;

    closed spec fn view(&self) -> DiagnosingView {
        DiagnosingView { status: self.status, function_name: self.function_name@ }
    }
}

impl Diagnosing {
    #[verifier::type_invariant]
    spec fn well_formed(self) -> bool {
        self.status != PvStatus::SUCCESS
    }

    /// Takes the status of retrieving the diagnostics. Where the retrieval
    /// itself failed, that failure is the error and there is nothing to
    /// copy or to free. Otherwise the messages are to be copied, in order,
    /// and the native copy freed once.
    pub fn retrieved(self, stack_status: PvStatus) -> (r: Result<Collecting, PorcupineError>)
        ensures
            match r {
                Ok(collecting) => stack_status == PvStatus::SUCCESS && collecting@ == self@,
                Err(e) => stack_status != PvStatus::SUCCESS && e@ == call_error(
                    self@.function_name,
                    self@.status,
                    stack_status,
                    Seq::empty(),
                ),
            },
    {
        proof {
            use_type_invariant(&self);
        }
        if stack_status.is_success() {
            Ok(Collecting { status: self.status, function_name: self.function_name })
        } else {
            let e = PorcupineError::new(
                PorcupineErrorStatus::LibraryError(stack_status),
                "Unable to get Porcupine error state",
            );
            assert(e@ =~= call_error(
                self@.function_name,
                self@.status,
                stack_status,
                Seq::empty(),
            ));
            Err(e)
        }
    }
}

/// The phase in which the retrieved diagnostics are copied out of native
/// memory.
#[derive(Debug)]
pub struct Collecting {
    status: PvStatus,
    function_name: String,
}

impl View for Collecting {
    type V = DiagnosingView;

    closed spec fn view(&self) -> DiagnosingView {
        DiagnosingView { status: self.status, function_name: self.function_name@ }
    }
}

impl Collecting {
    #[verifier::type_invariant]
    spec fn well_formed(self) -> bool {
        self.status != PvStatus::SUCCESS
    }

    /// Takes the copied messages and gives the error of the failed call:
    /// a library error with the status of that call, which is not success.
    pub fn collected(self, messages: Vec<String>) -> (e: PorcupineError)
        ensures
            e@ == call_error(
                self@.function_name,
                self@.status,
                PvStatus::SUCCESS,
                texts(messages@),
            ),
            e@.status == PorcupineErrorStatus::LibraryError(self@.status),
            self@.status != PvStatus::SUCCESS,
    {
        proof {
            use_type_invariant(&self);
        }
        let mut message = String::from_str("'");
        message.append(self.function_name.as_str());
        message.append("' failed");
        PorcupineError::new_with_stack(
            PorcupineErrorStatus::LibraryError(self.status),
            message.as_str(),
            messages,
        )
    }
}

/// The phase in which the new engine is asked for its version, its sample
/// rate and its frame length.
#[derive(Debug)]
pub struct Describing {}

impl Describing {
    /// Takes what the engine reported and gives the ready detector, which
    /// keeps these values for as long as it lives.
    pub fn described(self, version: String, sample_rate: i32, frame_length: i32) -> (inner:
        PorcupineInner)
        ensures
            inner@ == (PorcupineInnerView { frame_length, sample_rate, version: version@ }),
    {
        PorcupineInner { frame_length, sample_rate, version }
    }
}

/// A ready detector: the properties of the native engine that are fixed
/// for its lifetime.
#[derive(Debug)]
pub struct PorcupineInner {
    frame_length: i32,
    sample_rate: i32,
    version: String,
}

/// The mathematical content of a [`PorcupineInner`].
pub struct PorcupineInnerView {
    /// The number of samples the engine takes per frame.
    pub frame_length: i32,
    /// The sample rate the engine expects.
    pub sample_rate: i32,
    /// The version of the native library.
    pub version: Seq<char>,
}

impl View for PorcupineInner {
    type V = PorcupineInnerView;

    closed spec fn view(&self) -> PorcupineInnerView {
        PorcupineInnerView {
            frame_length: self.frame_length,
            sample_rate: self.sample_rate,
            version: self.version@,
        }
    }
}

/// The configuration made of the given parts.
pub open spec fn configuration_of(
    access_key: Seq<char>,
    library_path: Seq<char>,
    model_path: Seq<char>,
    keyword_paths: Seq<Seq<char>>,
    sensitivities: Seq<Sensitivity>,
) -> ConfigurationView {
    ConfigurationView { access_key, library_path, model_path, keyword_paths, sensitivities }
}

impl PorcupineInner {
    /// Begins the construction of a detector. The configuration is checked
    /// against what the file system says of its files; the first failed
    /// precondition is reported as an argument error, and then nothing is
    /// loaded and no native call is made. A valid configuration gives the
    /// first phase, in which the library is opened.
    pub fn init(
        access_key: &str,
        library_path: &str,
        model_path: &str,
        keyword_paths: &[String],
        sensitivities: &[Sensitivity],
        files: &FilePresence,
    ) -> (r: Result<Opening, PorcupineError>)
        ensures
            ({
                let config = configuration_of(
                    access_key@,
                    library_path@,
                    model_path@,
                    texts(keyword_paths@),
                    sensitivities@,
                );
                &&& r is Ok <==> is_valid_configuration(config, *files)
                &&& match r {
                    Ok(opening) => opening@ == config,
                    Err(e) => exists|violation: Violation|
                        is_first_violation(config, *files, violation) && e@ == violation_error(
                            config,
                            violation,
                        ),
                }
            }),
    {
        let copied = copy_sensitivities(sensitivities);
        let config = Configuration {
            access_key: String::from_str(access_key),
            library_path: String::from_str(library_path),
            model_path: String::from_str(model_path),
            keyword_paths: clone_strings(keyword_paths),
            sensitivities: copied,
        };
        assert(config@ == configuration_of(
            access_key@,
            library_path@,
            model_path@,
            texts(keyword_paths@),
            sensitivities@,
        ));
        Opening::begin(config, files)
    }

    /// Begins the classification of one frame. A frame whose length is not
    /// the frame length of the engine is refused, and no native call is
    /// made for it; the detector is as usable afterwards as before.
    pub fn process(&self, pcm: &[i16]) -> (r: Result<Detecting, PorcupineError>)
        ensures
            r is Ok <==> pcm@.len() == self@.frame_length,
            r matches Err(e) ==> e@ == frame_length_error(pcm@.len(), self@.frame_length as int),
    {
        let expected = self.frame_length;
        let matches = expected >= 0 && pcm.len() == expected as usize;
        if !matches {
            let mut message = String::from_str("Found a frame length of ");
            message.append(decimal_string(pcm.len() as u64).as_str());
            message.append(" Expected ");
            message.append(signed_decimal_string(expected as i64).as_str());
            let e = PorcupineError::new(PorcupineErrorStatus::FrameLengthError, message.as_str());
            assert(e@ =~= frame_length_error(pcm@.len(), self@.frame_length as int));
            return Err(e);
        }
        Ok(Detecting { })
    }

    /// The number of samples the engine takes per frame.
    pub fn frame_length(&self) -> (n: i32)
        ensures
            n == self@.frame_length,
    {
        self.frame_length
    }

    /// The sample rate the engine expects.
    pub fn sample_rate(&self) -> (n: i32)
        ensures
            n == self@.sample_rate,
    {
        self.sample_rate
    }

    /// The version of the native library.
    pub fn version(&self) -> (v: &str)
        ensures
            v@ == self@.version,
    {
        self.version.as_str()
    }
}

impl Opening {
    /// Checks a configuration and, where it is valid, gives the first
    /// phase of construction.
    pub fn begin(config: Configuration, files: &FilePresence) -> (r: Result<
        Opening,
        PorcupineError,
    >)
        ensures
            r is Ok <==> is_valid_configuration(config@, *files),
            match r {
                Ok(opening) => opening@ == config@,
                Err(e) => exists|violation: Violation|
                    is_first_violation(config@, *files, violation) && e@ == violation_error(
                        config@,
                        violation,
                    ),
            },
    {
        proof {
            valid_means_no_violation(config@, *files);
        }
        match config.validate(files) {
            Ok(()) => Ok(Opening { config }),
            Err(e) => Err(e),
        }
    }
}

/// The phase in which one frame is classified by the native engine.
#[derive(Debug)]
pub struct Detecting {}

/// What the result slot of a classification holds before the native call
/// writes to it: no detection.
pub const NO_DETECTION: i32 = -1;

impl Detecting {
    /// The value to put in the result slot before the native call.
    pub fn initial_index(&self) -> (index: i32)
        ensures
            index == NO_DETECTION,
    {
        NO_DETECTION
    }

    /// Takes what the native call returned: its status and the index it
    /// wrote. On success the index is the result: the position of the
    /// detected keyword in the configured list, or a negative number where
    /// the frame held none. Otherwise the diagnostics are to be retrieved.
    pub fn detected(self, status: PvStatus, keyword_index: i32) -> (r: Result<i32, Diagnosing>)
        ensures
            match r {
                Ok(index) => status == PvStatus::SUCCESS && index == keyword_index,
                Err(diagnosing) => status != PvStatus::SUCCESS && diagnosing@ == (DiagnosingView {
                    status,
                    function_name: "pv_porcupine_process"@,
                }),
            },
    {
        match check_fn_call_status(status, "pv_porcupine_process") {
            Ok(()) => Ok(keyword_index),
            Err(diagnosing) => Err(diagnosing),
        }
    }
}

/// A ready detector that can be shared: every clone stands for the same
/// native engine.
#[derive(Clone, Debug)]
pub struct Porcupine {
    inner: Arc<PorcupineInner>,
}

impl View for Porcupine {
    type V = PorcupineInnerView;

    closed spec fn view(&self) -> PorcupineInnerView {
        self.inner@
    }
}

/// The number a signed 32-bit value stands for when it is read as
/// unsigned.
pub open spec fn as_unsigned(n: i32) -> int {
    if n >= 0 {
        n as int
    } else {
        n + 0x1_0000_0000
    }
}

impl Porcupine {
    /// Makes a ready detector shareable.
    pub fn new(inner: PorcupineInner) -> (porcupine: Porcupine)
        ensures
            porcupine@ == inner@,
    {
        Porcupine { inner: Arc::new(inner) }
    }

    /// Begins the classification of one frame. A frame whose length is not
    /// the frame length of the engine is refused, and no native call is
    /// made for it; the detector is as usable afterwards as before.
    pub fn process(&self, pcm: &[i16]) -> (r: Result<Detecting, PorcupineError>)
        ensures
            r is Ok <==> pcm@.len() == self@.frame_length,
            r matches Err(e) ==> e@ == frame_length_error(pcm@.len(), self@.frame_length as int),
    {
        self.inner.process(pcm)
    }

    /// The number of samples the engine takes per frame.
    pub fn frame_length(&self) -> (n: u32)
        ensures
            n == as_unsigned(self@.frame_length),
    {
        to_unsigned(self.inner.frame_length())
    }

    /// The sample rate the engine expects.
    pub fn sample_rate(&self) -> (n: u32)
        ensures
            n == as_unsigned(self@.sample_rate),
    {
        to_unsigned(self.inner.sample_rate())
    }

    /// The version of the native library.
    pub fn version(&self) -> (v: &str)
        ensures
            v@ == self@.version,
    {
        self.inner.version()
    }
}

fn to_unsigned(n: i32) -> (r: u32)
    ensures
        r == as_unsigned(n),
{
    if n >= 0 {
        n as u32
    } else {
        let below: u32 = (-(n + 1)) as u32;
        u32::MAX - below
    }
}

} // verus!
