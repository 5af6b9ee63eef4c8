use porcupine::engine::{NO_DETECTION, SYMBOL_COUNT};
use porcupine::{
    pv_keyword_paths, BuiltinKeywords, Diagnosing, FilePresence, KeywordCatalog, KeywordFile, Opening,
    Porcupine, PorcupineBuilder, PorcupineError, PorcupineErrorStatus, PorcupineInner,
    PorcupineInnerVTable, PvStatus, Resolution, Sensitivity,
};

const SYMBOLS: [&str; 9] = [
    "pv_porcupine_init",
    "pv_porcupine_delete",
    "pv_porcupine_process",
    "pv_sample_rate",
    "pv_porcupine_frame_length",
    "pv_porcupine_version",
    "pv_get_error_stack",
    "pv_free_error_stack",
    "pv_set_sdk",
];

/// A native side that answers from a script and keeps a log of the calls.
struct Scripted {
    library_error: Option<String>,
    missing_symbol: Option<&'static str>,
    init_status: PvStatus,
    process_status: PvStatus,
    stack_status: PvStatus,
    stack: Vec<String>,
    version: String,
    sample_rate: i32,
    frame_length: i32,
    log: Vec<String>,
}

fn scripted() -> Scripted {
    Scripted {
        library_error: None,
        missing_symbol: None,
        init_status: PvStatus::SUCCESS,
        process_status: PvStatus::SUCCESS,
        stack_status: PvStatus::SUCCESS,
        stack: Vec::new(),
        version: "3.0.0".to_string(),
        sample_rate: 16000,
        frame_length: 512,
        log: Vec::new(),
    }
}

fn all_present(keywords: usize) -> FilePresence {
    FilePresence { library: true, model: true, keywords: vec![true; keywords] }
}

fn half() -> Sensitivity {
    Sensitivity::from_bits(0.5f32.to_bits())
}

/// Retrieves the scripted diagnostics, which are only read where the retrieval succeeds.
fn diagnose(diagnosing: Diagnosing, native: &mut Scripted) -> PorcupineError {
    native.log.push("get_error_stack".to_string());
    match diagnosing.retrieved(native.stack_status) {
        Ok(collecting) => {
            native.log.push("free_error_stack".to_string());
            collecting.collected(native.stack.clone())
        }
        Err(error) => error,
    }
}

fn finish(opening: Opening, native: &mut Scripted) -> Result<PorcupineInner, PorcupineError> {
    native.log.push(format!("open {}", opening.library_path()));
    let outcome = match &native.library_error {
        Some(reason) => Err(reason.clone()),
        None => Ok(()),
    };
    let mut table: PorcupineInnerVTable = opening.opened(outcome)?;
    let announcing = loop {
        let symbol = table.symbol();
        native.log.push(format!("resolve {}", symbol));
        let outcome = if native.missing_symbol == Some(symbol) {
            Err(format!("undefined symbol: {}", symbol))
        } else {
            Ok(())
        };
        match table.resolved(outcome)? {
            Resolution::More(next) => table = next,
            Resolution::Complete(announcing) => break announcing,
        }
    };
    native.log.push(format!("set_sdk {:?}", announcing.sdk()));
    let constructing = announcing.announced();
    native.log.push(format!("init {}", constructing.arguments().num_keywords));
    let describing = match constructing.constructed(native.init_status) {
        Ok(describing) => describing,
        Err(diagnosing) => return Err(diagnose(diagnosing, native)),
    };
    native.log.push("describe".to_string());
    Ok(describing.described(native.version.clone(), native.sample_rate, native.frame_length))
}

fn construct(
    builder: &PorcupineBuilder,
    files: &FilePresence,
    native: &mut Scripted,
) -> Result<Porcupine, PorcupineError> {
    let opening = builder.init(files)?;
    Ok(Porcupine::new(finish(opening, native)?))
}

/// The scripted engine detects keyword `k` in a frame that starts with `k + 1`.
fn process(porcupine: &Porcupine, frame: &[i16], native: &mut Scripted) -> Result<i32, PorcupineError> {
    let detecting = porcupine.process(frame)?;
    native.log.push("process".to_string());
    let mut index = detecting.initial_index();
    if native.process_status == PvStatus::SUCCESS && frame[0] > 0 {
        index = (frame[0] - 1) as i32;
    }
    match detecting.detected(native.process_status, index) {
        Ok(index) => Ok(index),
        Err(diagnosing) => Err(diagnose(diagnosing, native)),
    }
}

fn catalog_for(platform: &str) -> KeywordCatalog {
    let files: Vec<KeywordFile> = BuiltinKeywords::options()
        .iter()
        .map(|name| KeywordFile {
            file_name: format!("{}_{}.ppn", name, platform),
            path: format!("/res/{}/{}_{}.ppn", platform, name, platform),
        })
        .collect();
    pv_keyword_paths(platform, &files)
}

fn builder_for(keywords: &[BuiltinKeywords]) -> PorcupineBuilder {
    PorcupineBuilder::new_with_keywords(
        "key",
        keywords,
        &catalog_for("linux"),
        "/lib/libpv_porcupine.so",
        "/lib/porcupine_params.pv",
    )
}

/// Audio in which the keywords of `truth` are spoken in order, with silence around each.
fn audio(truth: &[i32], frame_length: usize) -> Vec<i16> {
    let mut samples = Vec::new();
    for index in truth {
        samples.extend(std::iter::repeat(0i16).take(3 * frame_length));
        samples.push((*index + 1) as i16);
        samples.extend(std::iter::repeat(7i16).take(frame_length - 1));
    }
    samples.extend(std::iter::repeat(0i16).take(frame_length / 2));
    samples
}

fn detections(porcupine: &Porcupine, samples: &[i16], native: &mut Scripted) -> Vec<i32> {
    let mut results = Vec::new();
    for frame in samples.chunks(porcupine.frame_length() as usize) {
        if frame.len() == porcupine.frame_length() as usize {
            let keyword_index = process(porcupine, frame, native).unwrap();
            if keyword_index >= 0 {
                results.push(keyword_index);
            }
        }
    }
    results
}

fn run_porcupine_test(keywords: &[BuiltinKeywords], ground_truth: Vec<i32>) -> Result<(), String> {
    let mut native = scripted();
    let porcupine = construct(&builder_for(keywords), &all_present(keywords.len()), &mut native)
        .expect("Unable to create Porcupine");
    let samples = audio(&ground_truth, porcupine.frame_length() as usize);
    let results = detections(&porcupine, &samples, &mut native);
    if results != ground_truth {
        Err(format!("{:?} != {:?}", results, ground_truth))
    } else {
        Ok(())
    }
}

#[test]
fn test_process_error_stack() {
    let mut native = scripted();
    let opening = PorcupineInner::init(
        "key",
        "/lib/libpv_porcupine.so",
        "/lib/porcupine_params.pv",
        &["/res/porcupine_linux.ppn".to_string()],
        &[half()],
        &all_present(1),
    )
    .expect("Unable to create Porcupine");
    let inner = finish(opening, &mut native).expect("Unable to create Porcupine");

    let test_pcm = vec![0; inner.frame_length() as usize];
    native.process_status = PvStatus::INVALID_ARGUMENT;
    native.stack = vec![
        "Porcupine object is NULL".to_string(),
        "pv_porcupine_process failed".to_string(),
    ];

    let detecting = inner.process(&test_pcm).expect("the frame has the right length");
    let res = match detecting.detected(native.process_status, NO_DETECTION) {
        Ok(index) => Ok(index),
        Err(diagnosing) => Err(diagnose(diagnosing, &mut native)),
    };

    if let Err(err) = res {
        assert!(err.message_stack.len() > 0);
        assert!(err.message_stack.len() < 8);
        assert_eq!(err.status, PorcupineErrorStatus::LibraryError(PvStatus::INVALID_ARGUMENT));
        assert_eq!(err.message, "'pv_porcupine_process' failed");
        assert_eq!(err.message_stack, native.stack);
    } else {
        assert!(res.unwrap() == 100);
    }
}

#[test]
fn test_process_single_builtin() {
    let mut native = scripted();
    let porcupine = construct(
        &builder_for(&[BuiltinKeywords::Porcupine]),
        &all_present(1),
        &mut native,
    )
    .expect("Unable to create Porcupine");

    assert_eq!(porcupine.sample_rate(), 16000);

    let samples = audio(&[0], porcupine.frame_length() as usize);
    let results = detections(&porcupine, &samples, &mut native);

    assert_eq!(results, [0]);
    let processed = native.log.iter().filter(|call| *call == "process").count();
    assert_eq!(processed, 4);
}

#[test]
fn test_process_multiple_builtin() {
    let selected_keywords = vec![
        BuiltinKeywords::Americano,
        BuiltinKeywords::Blueberry,
        BuiltinKeywords::Bumblebee,
        BuiltinKeywords::Grapefruit,
        BuiltinKeywords::Grasshopper,
        BuiltinKeywords::Picovoice,
        BuiltinKeywords::Porcupine,
        BuiltinKeywords::Terminator,
    ];

    let mut native = scripted();
    let porcupine = construct(&builder_for(&selected_keywords), &all_present(8), &mut native)
        .expect("Unable to create Porcupine");

    assert_eq!(porcupine.sample_rate(), 16000);

    let samples = audio(&[6, 0, 1, 2, 3, 4, 5, 6, 7], porcupine.frame_length() as usize);
    let results = detections(&porcupine, &samples, &mut native);
    assert_eq!(results, [6, 0, 1, 2, 3, 4, 5, 6, 7]);

    let expected_results = vec![
        BuiltinKeywords::Porcupine,
        BuiltinKeywords::Americano,
        BuiltinKeywords::Blueberry,
        BuiltinKeywords::Bumblebee,
        BuiltinKeywords::Grapefruit,
        BuiltinKeywords::Grasshopper,
        BuiltinKeywords::Picovoice,
        BuiltinKeywords::Porcupine,
        BuiltinKeywords::Terminator,
    ];

    assert_eq!(results.len(), expected_results.len());

    for (result, expected_result) in results.iter().zip(expected_results) {
        assert_eq!(*selected_keywords.get(*result as usize).unwrap(), expected_result);
    }
}

#[test]
fn test_single_keyword() -> Result<(), String> {
    for name in BuiltinKeywords::options() {
        let keyword = BuiltinKeywords::from_str(name).unwrap();
        run_porcupine_test(&[keyword], vec![0])?;
    }
    Ok(())
}

#[test]
fn test_multiple_keyword() -> Result<(), String> {
    let keywords = [
        BuiltinKeywords::Americano,
        BuiltinKeywords::Blueberry,
        BuiltinKeywords::Bumblebee,
        BuiltinKeywords::Grapefruit,
        BuiltinKeywords::Grasshopper,
        BuiltinKeywords::Picovoice,
        BuiltinKeywords::Porcupine,
        BuiltinKeywords::Terminator,
    ];
    run_porcupine_test(&keywords, vec![6, 0, 1, 2, 3, 4, 5, 6, 7])
}

#[test]
fn construction_makes_its_calls_once_and_in_order() {
    let mut native = scripted();
    let porcupine = construct(
        &builder_for(&[BuiltinKeywords::Alexa, BuiltinKeywords::Jarvis]),
        &all_present(2),
        &mut native,
    )
    .unwrap();
    let mut expected = vec!["open /lib/libpv_porcupine.so".to_string()];
    for symbol in SYMBOLS {
        expected.push(format!("resolve {}", symbol));
    }
    expected.push("set_sdk [114, 117, 115, 116, 0]".to_string());
    expected.push("init 2".to_string());
    expected.push("describe".to_string());
    assert_eq!(native.log, expected);
    assert_eq!(SYMBOL_COUNT, SYMBOLS.len());
    assert_eq!(porcupine.frame_length(), 512);
    assert_eq!(porcupine.sample_rate(), 16000);
    assert_eq!(porcupine.version(), "3.0.0");
}

#[test]
fn the_native_constructor_gets_native_strings() {
    let builder = PorcupineBuilder::new_with_keyword_paths(
        "secret",
        &["/k/a.ppn".to_string(), "/k/b c.ppn".to_string()],
        "/lib/x.so",
        "/lib/m.pv",
    );
    let opening = builder.init(&all_present(2)).unwrap();
    assert_eq!(opening.library_path(), "/lib/x.so");
    let mut table = opening.opened(Ok(())).unwrap();
    let announcing = loop {
        match table.resolved(Ok(())).unwrap() {
            Resolution::More(next) => table = next,
            Resolution::Complete(announcing) => break announcing,
        }
    };
    assert_eq!(announcing.sdk(), b"rust\0".to_vec());
    let constructing = announcing.announced();
    let arguments = constructing.arguments();
    assert_eq!(arguments.access_key, b"secret\0".to_vec());
    assert_eq!(arguments.model_path, b"/lib/m.pv\0".to_vec());
    assert_eq!(arguments.num_keywords, 2);
    assert_eq!(arguments.keyword_paths, vec![b"/k/a.ppn\0".to_vec(), b"/k/b c.ppn\0".to_vec()]);
    assert_eq!(arguments.sensitivities, vec![half(), half()]);
}

#[test]
fn accessors_give_the_same_values_every_time() {
    let mut native = scripted();
    native.version = "2.1.4".to_string();
    native.sample_rate = 8000;
    native.frame_length = 256;
    let porcupine =
        construct(&builder_for(&[BuiltinKeywords::Alexa]), &all_present(1), &mut native).unwrap();
    let shared = porcupine.clone();
    for _ in 0..3 {
        assert_eq!(porcupine.version(), "2.1.4");
        assert_eq!(porcupine.sample_rate(), 8000);
        assert_eq!(porcupine.frame_length(), 256);
        assert_eq!(shared.version(), "2.1.4");
        assert_eq!(shared.sample_rate(), 8000);
        assert_eq!(shared.frame_length(), 256);
        let frame = vec![0i16; 256];
        assert_eq!(process(&porcupine, &frame, &mut native).unwrap(), -1);
        assert!(process(&porcupine, &frame[..255], &mut native).is_err());
    }
}

#[test]
fn negative_reports_are_read_as_unsigned() {
    let mut native = scripted();
    native.sample_rate = -1;
    native.frame_length = i32::MIN;
    let porcupine =
        construct(&builder_for(&[BuiltinKeywords::Alexa]), &all_present(1), &mut native).unwrap();
    assert_eq!(porcupine.sample_rate(), u32::MAX);
    assert_eq!(porcupine.frame_length(), 0x8000_0000);
    let error = porcupine.process(&[0i16; 4]).unwrap_err();
    assert_eq!(error.status, PorcupineErrorStatus::FrameLengthError);
    assert_eq!(error.message, "Found a frame length of 4 Expected -2147483648");
}

#[test]
fn a_frame_of_the_wrong_length_is_refused_and_the_next_one_taken() {
    let mut native = scripted();
    let porcupine =
        construct(&builder_for(&[BuiltinKeywords::Alexa]), &all_present(1), &mut native).unwrap();
    native.log.clear();
    for length in [0usize, 1, 511, 513, 1024] {
        let error = process(&porcupine, &vec![1i16; length], &mut native).unwrap_err();
        assert_eq!(error.status, PorcupineErrorStatus::FrameLengthError);
        assert_eq!(
            error.message,
            format!("Found a frame length of {} Expected 512", length)
        );
        assert!(error.message_stack.is_empty());
    }
    assert!(native.log.is_empty());
    let mut frame = vec![0i16; 512];
    assert_eq!(process(&porcupine, &frame, &mut native).unwrap(), -1);
    frame[0] = 1;
    assert_eq!(process(&porcupine, &frame, &mut native).unwrap(), 0);
    assert_eq!(native.log, vec!["process".to_string(), "process".to_string()]);
}

#[test]
fn detection_indices_at_both_ends_are_passed_through() {
    let porcupine = Porcupine::new(
        {
            let mut native = scripted();
            let opening = builder_for(&[BuiltinKeywords::Alexa]).init(&all_present(1)).unwrap();
            finish(opening, &mut native).unwrap()
        },
    );
    let frame = vec![0i16; 512];
    for index in [0, 1, 7, i32::MAX, -1, i32::MIN] {
        let detecting = porcupine.process(&frame).unwrap();
        assert_eq!(detecting.initial_index(), -1);
        assert_eq!(detecting.detected(PvStatus::SUCCESS, index).unwrap(), index);
    }
}

#[test]
fn a_failed_classification_carries_the_diagnostics() {
    let mut native = scripted();
    let porcupine =
        construct(&builder_for(&[BuiltinKeywords::Alexa]), &all_present(1), &mut native).unwrap();
    native.log.clear();
    native.process_status = PvStatus::ACTIVATION_LIMIT_REACHED;
    native.stack = vec!["limit".to_string()];
    let frame = vec![1i16; 512];
    let error = process(&porcupine, &frame, &mut native).unwrap_err();
    assert_eq!(
        error.status,
        PorcupineErrorStatus::LibraryError(PvStatus::ACTIVATION_LIMIT_REACHED)
    );
    assert_eq!(error.message, "'pv_porcupine_process' failed");
    assert_eq!(error.message_stack, vec!["limit".to_string()]);
    assert_eq!(
        native.log,
        vec![
            "process".to_string(),
            "get_error_stack".to_string(),
            "free_error_stack".to_string()
        ]
    );
    native.process_status = PvStatus::SUCCESS;
    assert_eq!(process(&porcupine, &frame, &mut native).unwrap(), 0);
}

#[test]
fn diagnostics_that_cannot_be_had_are_reported_as_such() {
    let mut native = scripted();
    native.init_status = PvStatus::IO_ERROR;
    native.stack_status = PvStatus::OUT_OF_MEMORY;
    native.stack = vec!["never read".to_string()];
    let error =
        construct(&builder_for(&[BuiltinKeywords::Alexa]), &all_present(1), &mut native).unwrap_err();
    assert_eq!(error.status, PorcupineErrorStatus::LibraryError(PvStatus::OUT_OF_MEMORY));
    assert_eq!(error.message, "Unable to get Porcupine error state");
    assert!(error.message_stack.is_empty());
    assert_eq!(native.log.last().unwrap(), "get_error_stack");
}

#[test]
fn a_refused_construction_carries_the_diagnostics() {
    for status in [
        PvStatus::OUT_OF_MEMORY,
        PvStatus::IO_ERROR,
        PvStatus::INVALID_ARGUMENT,
        PvStatus::STOP_ITERATION,
        PvStatus::KEY_ERROR,
        PvStatus::INVALID_STATE,
        PvStatus::RUNTIME_ERROR,
        PvStatus::ACTIVATION_ERROR,
        PvStatus::ACTIVATION_LIMIT_REACHED,
        PvStatus::ACTIVATION_THROTTLED,
        PvStatus::ACTIVATION_REFUSED,
    ] {
        let mut native = scripted();
        native.init_status = status;
        native.stack = vec!["a".to_string(), "b".to_string(), "c".to_string()];
        let error = construct(&builder_for(&[BuiltinKeywords::Alexa]), &all_present(1), &mut native)
            .unwrap_err();
        assert_eq!(error.status, PorcupineErrorStatus::LibraryError(status));
        assert_eq!(error.message, "'pv_porcupine_init' failed");
        assert_eq!(error.message_stack, native.stack);
        assert_eq!(native.log.last().unwrap(), "free_error_stack");
        assert!(!native.log.contains(&"describe".to_string()));
    }
}

#[test]
fn a_library_that_does_not_load_is_a_load_error() {
    let mut native = scripted();
    native.library_error =
        Some("/nowhere/libpv_porcupine.so: cannot open shared object file".to_string());
    let mut builder = builder_for(&[BuiltinKeywords::Alexa]);
    builder.library_path("/nowhere/libpv_porcupine.so");
    let error = construct(&builder, &all_present(1), &mut native).unwrap_err();
    assert_eq!(error.status, PorcupineErrorStatus::LibraryLoadError);
    assert_eq!(
        error.message,
        "Failed to load porcupine dynamic library /nowhere/libpv_porcupine.so: /nowhere/libpv_porcupine.so: cannot open shared object file"
    );
    assert!(error.message.contains("/nowhere/libpv_porcupine.so"));
    assert!(error.message_stack.is_empty());
    assert_eq!(native.log, vec!["open /nowhere/libpv_porcupine.so".to_string()]);
}

#[test]
fn a_missing_entry_point_is_a_load_error_that_names_it() {
    for (position, symbol) in SYMBOLS.iter().enumerate() {
        let mut native = scripted();
        native.missing_symbol = Some(symbol);
        let error = construct(&builder_for(&[BuiltinKeywords::Alexa]), &all_present(1), &mut native)
            .unwrap_err();
        assert_eq!(error.status, PorcupineErrorStatus::LibraryLoadError);
        assert_eq!(
            error.message,
            format!(
                "Failed to load function symbol {} from porcupine library: undefined symbol: {}",
                symbol, symbol
            )
        );
        assert_eq!(native.log.len(), position + 2);
        assert_eq!(native.log.last().unwrap(), &format!("resolve {}", symbol));
    }
}

#[test]
fn an_access_key_with_a_zero_byte_is_refused_before_any_native_call() {
    let mut native = scripted();
    let mut builder = builder_for(&[BuiltinKeywords::Alexa]);
    builder.access_key("ab\0c");
    let error = construct(&builder, &all_present(1), &mut native).unwrap_err();
    assert_eq!(error.status, PorcupineErrorStatus::ArgumentError);
    assert_eq!(
        error.message,
        "AccessKey is not a valid C string nul byte found in provided data at position: 2"
    );
    assert_eq!(native.log.len(), 10);
    assert!(native.log.iter().all(|call| call.starts_with("open") || call.starts_with("resolve")));
}

#[test]
fn paths_with_a_zero_byte_are_refused_before_any_native_call() {
    let mut native = scripted();
    let mut builder = builder_for(&[BuiltinKeywords::Alexa]);
    builder.model_path("m\0");
    let error = construct(&builder, &all_present(1), &mut native).unwrap_err();
    assert_eq!(error.status, PorcupineErrorStatus::ArgumentError);
    assert_eq!(
        error.message,
        "Path is not a valid C string nul byte found in provided data at position: 1"
    );
    let mut builder = builder_for(&[BuiltinKeywords::Alexa]);
    builder.keyword_paths(&["\0k".to_string()]);
    let error = construct(&builder, &all_present(1), &mut native).unwrap_err();
    assert_eq!(
        error.message,
        "Path is not a valid C string nul byte found in provided data at position: 0"
    );
    assert!(!native.log.iter().any(|call| call.starts_with("set_sdk") || call.starts_with("init")));
}

#[test]
fn a_status_other_than_success_asks_for_the_diagnostics() {
    assert!(porcupine::check_fn_call_status(PvStatus::SUCCESS, "pv_porcupine_init").is_ok());
    let diagnosing =
        porcupine::check_fn_call_status(PvStatus::KEY_ERROR, "pv_porcupine_init").unwrap_err();
    let error = diagnosing.retrieved(PvStatus::SUCCESS).unwrap().collected(Vec::new());
    assert_eq!(error.status, PorcupineErrorStatus::LibraryError(PvStatus::KEY_ERROR));
    assert_eq!(error.message, "'pv_porcupine_init' failed");
    assert!(error.message_stack.is_empty());
    let diagnosing = porcupine::check_fn_call_status(PvStatus::KEY_ERROR, "f").unwrap_err();
    let error = diagnosing.retrieved(PvStatus::INVALID_STATE).unwrap_err();
    assert_eq!(error.status, PorcupineErrorStatus::LibraryError(PvStatus::INVALID_STATE));
    assert_eq!(error.message, "Unable to get Porcupine error state");
}

#[test]
fn symbol_lookups_are_turned_into_load_errors() {
    assert!(porcupine::load_library_fn("pv_sample_rate", Ok(())).is_ok());
    let error =
        porcupine::load_library_fn("pv_sample_rate", Err("not found".to_string())).unwrap_err();
    assert_eq!(error.status, PorcupineErrorStatus::LibraryLoadError);
    assert_eq!(
        error.message,
        "Failed to load function symbol pv_sample_rate from porcupine library: not found"
    );
    assert!(error.message_stack.is_empty());
}

#[test]
fn a_new_table_starts_with_the_first_entry_point() {
    let opening = builder_for(&[BuiltinKeywords::Alexa]).init(&all_present(1)).unwrap();
    let mut table = PorcupineInnerVTable::new(opening);
    for (position, symbol) in SYMBOLS.iter().enumerate() {
        assert_eq!(table.symbol(), *symbol);
        match table.resolved(Ok(())).unwrap() {
            Resolution::More(next) => table = next,
            Resolution::Complete(_) => {
                assert_eq!(position, 8);
                return;
            }
        }
    }
    unreachable!();
}
