//! What a program that runs the detector over recorded audio decides: which
//! audio it accepts, how far each frame moves the clock, and how a
//! detection is reported.

use vstd::prelude::*;
use crate::keywords::BuiltinKeywords;
use crate::text::{decimal, decimal_string};

verus! {

/// The keywords a program listens for: built-in ones, or model files.
#[derive(Clone, Debug)]
pub enum KeywordsOrPaths {
    Keywords(Vec<BuiltinKeywords>),
    KeywordPaths(Vec<String>),
}

impl KeywordsOrPaths {
    /// How many keywords there are.
    pub open spec fn spec_len(self) -> nat {
        match self {
            KeywordsOrPaths::Keywords(keywords) => keywords@.len(),
            KeywordsOrPaths::KeywordPaths(paths) => paths@.len(),
        }
    }

    /// How the keyword at `index` is called in a report: by its name, or
    /// by the path of its model file.
    pub open spec fn spec_label(self, index: int) -> Seq<char> {
        match self {
            KeywordsOrPaths::Keywords(keywords) => keywords@[index].spec_name(),
            KeywordsOrPaths::KeywordPaths(paths) => paths@[index]@,
        }
    }

    /// How many keywords there are.
    pub fn len(&self) -> (n: usize)
        ensures
            n == self.spec_len(),
    {
        match self {
            KeywordsOrPaths::Keywords(keywords) => keywords.len(),
            KeywordsOrPaths::KeywordPaths(paths) => paths.len(),
        }
    }

    /// How the keyword at `index` is called in a report.
    pub fn get(&self, index: usize) -> (label: String)
        requires
            index < self.spec_len(),
        ensures
            label@ == self.spec_label(index as int),
    {
        match self {
            KeywordsOrPaths::Keywords(keywords) => String::from_str(keywords[index].to_str()),
            KeywordsOrPaths::KeywordPaths(paths) => paths[index].clone(),
        }
    }
}

/// Why audio of the given format cannot be fed to an engine that expects
/// `expected_rate`, if it cannot: the sample rate is checked first, then
/// the number of channels, then the sample format.
pub open spec fn format_complaint(
    expected_rate: u32,
    rate: u32,
    channels: u16,
    bits_per_sample: u16,
    integer_samples: bool,
) -> Option<Seq<char>> {
    if rate != expected_rate {
        Some(
            "Audio file should have the expected sample rate of "@ + decimal(expected_rate as nat)
                + ", got "@ + decimal(rate as nat),
        )
    } else if channels != 1 {
        Some(
            "Audio file should have the expected number of channels 1, got "@ + decimal(
                channels as nat,
            ),
        )
    } else if bits_per_sample != 16 || !integer_samples {
        Some("WAV format should be in the signed 16 bit format"@)
    } else {
        None
    }
}

/// Checks the format of recorded audio against what the engine expects:
/// one channel of signed 16-bit samples at the engine's sample rate.
pub fn check_audio_format(
    expected_rate: u32,
    rate: u32,
    channels: u16,
    bits_per_sample: u16,
    integer_samples: bool,
) -> (complaint: Option<String>)
    ensures
        match complaint {
            Some(words) => format_complaint(
                expected_rate,
                rate,
                channels,
                bits_per_sample,
                integer_samples,
            ) == Some(words@),
            None => format_complaint(
                expected_rate,
                rate,
                channels,
                bits_per_sample,
                integer_samples,
            ) is None,
        },
{
    if rate != expected_rate {
        let mut words = String::from_str("Audio file should have the expected sample rate of ");
        words.append(decimal_string(expected_rate as u64).as_str());
        words.append(", got ");
        words.append(decimal_string(rate as u64).as_str());
        Some(words)
    } else if channels != 1 {
        let mut words = String::from_str(
            "Audio file should have the expected number of channels 1, got ",
        );
        words.append(decimal_string(channels as u64).as_str());
        Some(words)
    } else if bits_per_sample != 16 || !integer_samples {
        Some(String::from_str("WAV format should be in the signed 16 bit format"))
    } else {
        None
    }
}

/// How many whole milliseconds a frame of `samples` samples lasts at
/// `sample_rate` samples per second.
pub fn frame_millis(samples: usize, sample_rate: u32) -> (millis: u64)
    requires
        sample_rate > 0,
        1000 * samples <= u64::MAX,
    ensures
        millis == (1000 * samples) / (sample_rate as int),
{
    (1000 * (samples as u64)) / (sample_rate as u64)
}

/// The report of a detection at a time counted in milliseconds: minutes,
/// seconds of the minute and milliseconds of the second in brackets, then
/// the keyword.
pub open spec fn detection_report(millis: nat, label: Seq<char>) -> Seq<char> {
    "["@ + decimal(millis / 60000) + ":"@ + decimal(((millis / 1000) % 60) as nat) + ":"@
        + decimal(millis % 1000) + "] Detected "@ + label
}

/// Writes the report of a detection.
pub fn report_detection(millis: u64, label: &str) -> (line: String)
    ensures
        line@ == detection_report(millis as nat, label@),
{
    let minutes = millis / 60000;
    let seconds = millis / 1000 - minutes * 60;
    let rest = millis - (millis / 1000) * 1000;
    assert(seconds == (millis / 1000) % 60) by (nonlinear_arith)
        requires
            minutes == millis / 60000,
            seconds == millis / 1000 - minutes * 60,
    ;
    let mut line = String::from_str("[");
    line.append(decimal_string(minutes).as_str());
    line.append(":");
    line.append(decimal_string(seconds).as_str());
    line.append(":");
    line.append(decimal_string(rest).as_str());
    line.append("] Detected ");
    line.append(label);
    line
}

} // verus!
