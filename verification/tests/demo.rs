use porcupine::demo::{check_audio_format, frame_millis, report_detection, KeywordsOrPaths};
use porcupine::BuiltinKeywords;

#[test]
fn keywords_are_called_by_name_and_files_by_path() {
    let keywords =
        KeywordsOrPaths::Keywords(vec![BuiltinKeywords::Porcupine, BuiltinKeywords::HeySiri]);
    assert_eq!(keywords.len(), 2);
    assert_eq!(keywords.get(0), "porcupine");
    assert_eq!(keywords.get(1), "hey siri");
    let paths = KeywordsOrPaths::KeywordPaths(vec!["/k/a.ppn".to_string()]);
    assert_eq!(paths.len(), 1);
    assert_eq!(paths.get(0), "/k/a.ppn");
}

#[test]
fn mono_sixteen_bit_audio_at_the_engine_rate_is_accepted() {
    assert_eq!(check_audio_format(16000, 16000, 1, 16, true), None);
}

#[test]
fn other_audio_is_refused_with_the_first_reason() {
    assert_eq!(
        check_audio_format(16000, 44100, 2, 8, false),
        Some("Audio file should have the expected sample rate of 16000, got 44100".to_string())
    );
    assert_eq!(
        check_audio_format(16000, 16000, 2, 8, false),
        Some("Audio file should have the expected number of channels 1, got 2".to_string())
    );
    assert_eq!(
        check_audio_format(16000, 16000, 1, 8, true),
        Some("WAV format should be in the signed 16 bit format".to_string())
    );
    assert_eq!(
        check_audio_format(16000, 16000, 1, 16, false),
        Some("WAV format should be in the signed 16 bit format".to_string())
    );
    assert_eq!(
        check_audio_format(16000, 16000, 0, 16, true),
        Some("Audio file should have the expected number of channels 1, got 0".to_string())
    );
}

#[test]
fn a_frame_lasts_its_whole_milliseconds() {
    assert_eq!(frame_millis(512, 16000), 32);
    assert_eq!(frame_millis(0, 16000), 0);
    assert_eq!(frame_millis(100, 16000), 6);
    assert_eq!(frame_millis(16000, 16000), 1000);
    assert_eq!(frame_millis(1, 1), 1000);
    assert_eq!(frame_millis(15, 16000), 0);
}

#[test]
fn detections_are_reported_with_their_time() {
    assert_eq!(report_detection(0, "porcupine"), "[0:0:0] Detected porcupine");
    assert_eq!(report_detection(1504, "alexa"), "[0:1:504] Detected alexa");
    assert_eq!(report_detection(59999, "x"), "[0:59:999] Detected x");
    assert_eq!(report_detection(60000, "x"), "[1:0:0] Detected x");
    assert_eq!(report_detection(3_723_045, "hey siri"), "[62:3:45] Detected hey siri");
}
