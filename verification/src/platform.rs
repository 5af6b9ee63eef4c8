//! Resolution of the running platform to the prebuilt library variant and
//! to the platform tag of the keyword files.
//!
//! On Linux on ARM the variant depends on the processor, which is read from
//! the `CPU part` field of the system's processor description.

use vstd::prelude::*;
use vstd::string::StrSliceExecFns;
use crate::error::{PorcupineError, PorcupineErrorStatus};
use crate::text::{
    chars_of, eq_ignoring_ascii_case, find_last, find_text, first_occurrence, last_at, lowered,
    occurs_in,
};

verus! {

/// The operating system the process runs on.
#[derive(PartialEq, Eq, Clone, Copy, Debug, Structural)]
pub enum Os {
    MacOs,
    Windows,
    Linux,
    Other,
}

/// The processor architecture the process was built for.
#[derive(PartialEq, Eq, Clone, Copy, Debug, Structural)]
pub enum Arch {
    X86_64,
    Aarch64,
    Arm,
    Other,
}

/// The processor of an ARM board, as far as the library variants tell
/// processors apart.
#[derive(PartialEq, Eq, Clone, Copy, Debug, Structural)]
pub enum Machine {
    Arm11,
    CortexA7,
    CortexA53,
    CortexA57,
    CortexA72,
    Beaglebone,
    Unsupported,
}

/// The label of the field that identifies the processor.
pub open spec fn cpu_part_label() -> Seq<char> {
    "CPU part"@
}

/// Whether the line that holds position `from` ends at `end`: at the first
/// line feed from `from` on, or at the end of the text.
pub open spec fn is_line_end(text: Seq<char>, from: int, end: int) -> bool {
    &&& 0 <= from <= end <= text.len()
    &&& end == text.len() || text[end] == '\n'
    &&& forall|j: int| from <= j < end ==> text[j] != '\n'
}

/// Whether a processor description has a `CPU part` field.
pub open spec fn has_cpu_part(text: Seq<char>) -> bool {
    occurs_in(text, cpu_part_label())
}

/// The value of the first `CPU part` field of a processor description:
/// what follows the last space of the first line that holds the label.
pub open spec fn cpu_part_field(text: Seq<char>) -> Seq<char>
    recommends
        has_cpu_part(text),
{
    let start = choose|start: int| first_occurrence(text, cpu_part_label(), start);
    let end = choose|end: int| is_line_end(text, start, end);
    let rest = text.subrange(start, end);
    let space = choose|space: int| last_at(rest, ' ', space);
    rest.subrange(space + 1, rest.len() as int)
}

/// The processor a `CPU part` value stands for. The value is a hexadecimal
/// number whose letters may be written in either case.
pub open spec fn machine_of(field: Seq<char>) -> Machine {
    let id = lowered(field);
    if id == "0xb76"@ {
        Machine::Arm11
    } else if id == "0xc07"@ {
        Machine::CortexA7
    } else if id == "0xd03"@ {
        Machine::CortexA53
    } else if id == "0xd07"@ {
        Machine::CortexA57
    } else if id == "0xd08"@ {
        Machine::CortexA72
    } else if id == "0xc08"@ {
        Machine::Beaglebone
    } else {
        Machine::Unsupported
    }
}

impl Machine {
    /// The name of the processor in library paths.
    pub open spec fn spec_name(self) -> Seq<char> {
        match self {
            Machine::Arm11 => "arm11"@,
            Machine::CortexA7 => "cortex-a7"@,
            Machine::CortexA53 => "cortex-a53"@,
            Machine::CortexA57 => "cortex-a57"@,
            Machine::CortexA72 => "cortex-a72"@,
            Machine::Beaglebone => "beaglebone"@,
            Machine::Unsupported => "unsupported"@,
        }
    }

    /// Whether the processor is that of a Raspberry Pi.
    pub open spec fn spec_is_raspberry_pi(self) -> bool {
        self == Machine::Arm11 || self == Machine::CortexA7 || self == Machine::CortexA53 || self
            == Machine::CortexA72
    }

    /// Whether the processor is that of a Jetson board.
    pub open spec fn spec_is_jetson(self) -> bool {
        self == Machine::CortexA57
    }

    /// The name of the processor in library paths.
    pub fn name(&self) -> (s: &'static str)
        ensures
            s@ == self.spec_name(),
    {
        match self {
            Machine::Arm11 => "arm11",
            Machine::CortexA7 => "cortex-a7",
            Machine::CortexA53 => "cortex-a53",
            Machine::CortexA57 => "cortex-a57",
            Machine::CortexA72 => "cortex-a72",
            Machine::Beaglebone => "beaglebone",
            Machine::Unsupported => "unsupported",
        }
    }

    /// Whether the processor is that of a Raspberry Pi.
    pub fn is_raspberry_pi(&self) -> (r: bool)
        ensures
            r == self.spec_is_raspberry_pi(),
    {
        match self {
            Machine::Arm11 | Machine::CortexA7 | Machine::CortexA53 | Machine::CortexA72 => true,
            _ => false,
        }
    }

    /// Whether the processor is that of a Jetson board.
    pub fn is_jetson(&self) -> (r: bool)
        ensures
            r == self.spec_is_jetson(),
    {
        match self {
            Machine::CortexA57 => true,
            _ => false,
        }
    }
}

/// A configuration error without diagnostics.
pub open spec fn configuration_error(e: PorcupineError, message: Seq<char>) -> bool {
    &&& e@.status == PorcupineErrorStatus::ArgumentError
    &&& e@.message == message
    &&& e@.message_stack.len() == 0
}

/// What is said of a processor description without a `CPU part` field.
pub open spec fn unsupported_cpu_message() -> Seq<char> {
    "Unsupported CPU"@
}

/// What is said of a processor no keyword files exist for.
pub open spec fn unsupported_device_message(field: Seq<char>) -> Seq<char> {
    "This device is not officially supported by Picovoice: CPU part "@ + field
}

/// What is said of an operating system and architecture no library variant
/// exists for.
pub open spec fn unsupported_platform_message() -> Seq<char> {
    "Unsupported platform"@
}

/// Reads the value of the first `CPU part` field of a processor
/// description, if it has one.
pub fn cpu_part(cpu_info: &str) -> (r: Option<String>)
    ensures
        match r {
            Some(field) => has_cpu_part(cpu_info@) && field@ == cpu_part_field(cpu_info@),
            None => !has_cpu_part(cpu_info@),
        },
{
    let text = chars_of(cpu_info);
    let label = chars_of("CPU part");
    let start = match find_text(text.as_slice(), label.as_slice()) {
        Some(start) => start,
        None => {
            return None;
        },
    };
    proof {
        reveal_strlit("CPU part");
        assert forall|j: int| 0 <= j < 8 implies text@[start + j] == label@[j] by {
            assert(text@.subrange(start as int, start + 8)[j] == label@[j]);
        }
    }
    let mut end: usize = start;
    while end < text.len() && text[end] != '\n'
        invariant
            start <= end <= text@.len(),
            forall|j: int| start <= j < end ==> text@[j] != '\n',
        decreases text@.len() - end,
    {
        end += 1;
    }
    proof {
        if end < start + 8 {
            assert(text@[start + (end - start)] == label@[end - start]);
        }
    }
    let rest = cpu_info.substring_char(start, end);
    let rest_chars = chars_of(rest);
    assert(rest_chars@[3] == text@[start + 3]);
    let space = match find_last(rest_chars.as_slice(), ' ') {
        Some(space) => space,
        None => {
            assert(rest_chars@.contains(rest_chars@[3]));
            return None;
        },
    };
    proof {
        assert(label@ == cpu_part_label());
        assert(first_occurrence(text@, cpu_part_label(), start as int));
        let chosen_start = choose|p: int| first_occurrence(text@, cpu_part_label(), p);
        unique_first_occurrence(text@, cpu_part_label(), start as int, chosen_start);
        assert(is_line_end(text@, start as int, end as int));
        let chosen_end = choose|e: int| is_line_end(text@, chosen_start, e);
        unique_line_end(text@, start as int, end as int, chosen_end);
        assert(last_at(rest_chars@, ' ', space as int));
        let chosen_space = choose|q: int| last_at(rest_chars@, ' ', q);
        unique_last(rest_chars@, ' ', space as int, chosen_space);
        assert(rest_chars@ == text@.subrange(chosen_start, chosen_end));
    }
    let field = rest.substring_char(space + 1, rest_chars.len());
    Some(String::from_str(field))
}

proof fn unique_first_occurrence(whole: Seq<char>, part: Seq<char>, a: int, b: int)
    requires
        first_occurrence(whole, part, a),
        first_occurrence(whole, part, b),
    ensures
        a == b,
{
}

proof fn unique_last(items: Seq<char>, item: char, a: int, b: int)
    requires
        last_at(items, item, a),
        last_at(items, item, b),
    ensures
        a == b,
{
}

proof fn unique_line_end(text: Seq<char>, from: int, a: int, b: int)
    requires
        is_line_end(text, from, a),
        is_line_end(text, from, b),
    ensures
        a == b,
{
}

/// Tells the processor from a `CPU part` value.
pub fn machine_from_part(field: &str) -> (machine: Machine)
    ensures
        machine == machine_of(field@),
{
    let id = chars_of(field);
    proof {
        reveal_strlit("0xb76");
        reveal_strlit("0xc07");
        reveal_strlit("0xd03");
        reveal_strlit("0xd07");
        reveal_strlit("0xd08");
        reveal_strlit("0xc08");
        assert(lowered("0xb76"@) =~= "0xb76"@);
        assert(lowered("0xc07"@) =~= "0xc07"@);
        assert(lowered("0xd03"@) =~= "0xd03"@);
        assert(lowered("0xd07"@) =~= "0xd07"@);
        assert(lowered("0xd08"@) =~= "0xd08"@);
        assert(lowered("0xc08"@) =~= "0xc08"@);
    }
    if eq_ignoring_ascii_case(id.as_slice(), chars_of("0xb76").as_slice()) {
        Machine::Arm11
    } else if eq_ignoring_ascii_case(id.as_slice(), chars_of("0xc07").as_slice()) {
        Machine::CortexA7
    } else if eq_ignoring_ascii_case(id.as_slice(), chars_of("0xd03").as_slice()) {
        Machine::CortexA53
    } else if eq_ignoring_ascii_case(id.as_slice(), chars_of("0xd07").as_slice()) {
        Machine::CortexA57
    } else if eq_ignoring_ascii_case(id.as_slice(), chars_of("0xd08").as_slice()) {
        Machine::CortexA72
    } else if eq_ignoring_ascii_case(id.as_slice(), chars_of("0xc08").as_slice()) {
        Machine::Beaglebone
    } else {
        Machine::Unsupported
    }
}

/// Tells the processor of an ARM board from its processor description.
/// A description without a `CPU part` field is refused.
pub fn find_machine_type(cpu_info: &str) -> (r: Result<Machine, PorcupineError>)
    ensures
        match r {
            Ok(machine) => has_cpu_part(cpu_info@) && machine == machine_of(
                cpu_part_field(cpu_info@),
            ),
            Err(e) => !has_cpu_part(cpu_info@) && configuration_error(e, unsupported_cpu_message()),
        },
{
    match cpu_part(cpu_info) {
        Some(field) => Ok(machine_from_part(field.as_str())),
        None => Err(PorcupineError::new(PorcupineErrorStatus::ArgumentError, "Unsupported CPU")),
    }
}

/// A path with one more component: the component follows a slash, which is
/// added unless the path is empty or ends with one.
pub open spec fn joined(base: Seq<char>, component: Seq<char>) -> Seq<char> {
    if base.len() == 0 || base.last() == '/' {
        base + component
    } else {
        base + seq!['/'] + component
    }
}

/// Whether the platform is Linux on an ARM processor.
pub open spec fn is_arm_linux(os: Os, arch: Arch) -> bool {
    os == Os::Linux && (arch == Arch::Arm || arch == Arch::Aarch64)
}

/// The library variant for a processor of an ARM board. A processor that is
/// not known gets the variant of the earliest Raspberry Pi.
pub open spec fn arm_library_path(machine: Machine, arch: Arch) -> Seq<char> {
    if machine.spec_is_raspberry_pi() {
        if arch == Arch::Aarch64 {
            "raspberry-pi/"@ + machine.spec_name() + "-aarch64/libpv_porcupine.so"@
        } else {
            "raspberry-pi/"@ + machine.spec_name() + "/libpv_porcupine.so"@
        }
    } else if machine.spec_is_jetson() {
        "jetson/cortex-a57-aarch64/libpv_porcupine.so"@
    } else if machine == Machine::Beaglebone {
        "beaglebone/libpv_porcupine.so"@
    } else {
        "raspberry-pi/arm11/libpv_porcupine.so"@
    }
}

/// The library variant of a platform, relative to the library directory.
/// There is none for a platform without a variant, nor on Linux on ARM
/// where the processor description has no `CPU part` field.
pub open spec fn spec_base_library_path(os: Os, arch: Arch, cpu_info: Seq<char>) -> Option<
    Seq<char>,
> {
    if os == Os::MacOs && arch == Arch::X86_64 {
        Some("mac/x86_64/libpv_porcupine.dylib"@)
    } else if os == Os::MacOs && arch == Arch::Aarch64 {
        Some("mac/arm64/libpv_porcupine.dylib"@)
    } else if os == Os::Windows {
        Some("windows/amd64/libpv_porcupine.dll"@)
    } else if os == Os::Linux && arch == Arch::X86_64 {
        Some("linux/x86_64/libpv_porcupine.so"@)
    } else if is_arm_linux(os, arch) && has_cpu_part(cpu_info) {
        Some(arm_library_path(machine_of(cpu_part_field(cpu_info)), arch))
    } else {
        None
    }
}

/// Whether the library variant of the platform is the one that stands in
/// for a processor that is not known.
pub open spec fn spec_uses_fallback_library(os: Os, arch: Arch, cpu_info: Seq<char>) -> bool {
    is_arm_linux(os, arch) && has_cpu_part(cpu_info) && machine_of(cpu_part_field(cpu_info))
        == Machine::Unsupported
}

/// The platform tag of an ARM board, if keyword files exist for it.
pub open spec fn arm_platform_tag(machine: Machine) -> Option<Seq<char>> {
    if machine.spec_is_raspberry_pi() {
        Some("raspberry-pi"@)
    } else if machine.spec_is_jetson() {
        Some("jetson"@)
    } else if machine == Machine::Beaglebone {
        Some("beaglebone"@)
    } else {
        None
    }
}

/// The platform tag by which keyword files are chosen, if the platform has
/// one.
pub open spec fn spec_platform_tag(os: Os, arch: Arch, cpu_info: Seq<char>) -> Option<Seq<char>> {
    if os == Os::MacOs {
        Some("mac"@)
    } else if os == Os::Windows {
        Some("windows"@)
    } else if os == Os::Linux && arch == Arch::X86_64 {
        Some("linux"@)
    } else if is_arm_linux(os, arch) && has_cpu_part(cpu_info) {
        arm_platform_tag(machine_of(cpu_part_field(cpu_info)))
    } else {
        None
    }
}

/// What is said where the platform has no library variant or no tag.
pub open spec fn platform_complaint(os: Os, arch: Arch, cpu_info: Seq<char>) -> Seq<char> {
    if !is_arm_linux(os, arch) {
        unsupported_platform_message()
    } else if !has_cpu_part(cpu_info) {
        unsupported_cpu_message()
    } else {
        unsupported_device_message(cpu_part_field(cpu_info))
    }
}

/// Whether the platform is Linux on an ARM processor.
pub fn arm_linux(os: Os, arch: Arch) -> (r: bool)
    ensures
        r == is_arm_linux(os, arch),
{
    match os {
        Os::Linux => match arch {
            Arch::Arm | Arch::Aarch64 => true,
            _ => false,
        },
        _ => false,
    }
}

/// Adds a component to a path.
pub fn join(base: &str, component: &str) -> (path: String)
    ensures
        path@ == joined(base@, component@),
{
    let base_chars = chars_of(base);
    let mut path = String::from_str(base);
    if base_chars.len() > 0 && base_chars[base_chars.len() - 1] != '/' {
        path.append("/");
        proof {
            reveal_strlit("/");
            assert("/"@ =~= seq!['/']);
        }
    }
    path.append(component);
    path
}

fn arm_library(machine: Machine, arch: Arch) -> (path: String)
    ensures
        path@ == arm_library_path(machine, arch),
{
    if machine.is_raspberry_pi() {
        let mut path = String::from_str("raspberry-pi/");
        path.append(machine.name());
        match arch {
            Arch::Aarch64 => {
                path.append("-aarch64/libpv_porcupine.so");
            },
            _ => {
                path.append("/libpv_porcupine.so");
            },
        }
        path
    } else if machine.is_jetson() {
        String::from_str("jetson/cortex-a57-aarch64/libpv_porcupine.so")
    } else {
        match machine {
            Machine::Beaglebone => String::from_str("beaglebone/libpv_porcupine.so"),
            _ => String::from_str("raspberry-pi/arm11/libpv_porcupine.so"),
        }
    }
}

fn platform_error(os: Os, arch: Arch, cpu_info: &str) -> (e: PorcupineError)
    ensures
        configuration_error(e, platform_complaint(os, arch, cpu_info@)),
{
    if !arm_linux(os, arch) {
        PorcupineError::new(PorcupineErrorStatus::ArgumentError, "Unsupported platform")
    } else {
        match cpu_part(cpu_info) {
            None => PorcupineError::new(PorcupineErrorStatus::ArgumentError, "Unsupported CPU"),
            Some(field) => {
                let mut message = String::from_str(
                    "This device is not officially supported by Picovoice: CPU part ",
                );
                message.append(field.as_str());
                PorcupineError::new(PorcupineErrorStatus::ArgumentError, message.as_str())
            },
        }
    }
}

/// The library variant of the platform, relative to the library directory.
/// `cpu_info` is the processor description of the system; it is read only
/// on Linux on ARM.
pub fn base_library_path(os: Os, arch: Arch, cpu_info: &str) -> (r: Result<String, PorcupineError>)
    ensures
        match r {
            Ok(path) => spec_base_library_path(os, arch, cpu_info@) == Some(path@),
            Err(e) => spec_base_library_path(os, arch, cpu_info@) is None && configuration_error(
                e,
                platform_complaint(os, arch, cpu_info@),
            ),
        },
{
    match os {
        Os::MacOs => match arch {
            Arch::X86_64 => Ok(String::from_str("mac/x86_64/libpv_porcupine.dylib")),
            Arch::Aarch64 => Ok(String::from_str("mac/arm64/libpv_porcupine.dylib")),
            _ => Err(platform_error(os, arch, cpu_info)),
        },
        Os::Windows => Ok(String::from_str("windows/amd64/libpv_porcupine.dll")),
        Os::Linux => match arch {
            Arch::X86_64 => Ok(String::from_str("linux/x86_64/libpv_porcupine.so")),
            Arch::Arm | Arch::Aarch64 => match find_machine_type(cpu_info) {
                Ok(machine) => Ok(arm_library(machine, arch)),
                Err(e) => Err(e),
            },
            Arch::Other => Err(platform_error(os, arch, cpu_info)),
        },
        Os::Other => Err(platform_error(os, arch, cpu_info)),
    }
}

/// Whether the library variant of the platform stands in for a processor
/// that is not known, so that the caller can warn of it.
pub fn uses_fallback_library(os: Os, arch: Arch, cpu_info: &str) -> (r: bool)
    ensures
        r == spec_uses_fallback_library(os, arch, cpu_info@),
{
    if !arm_linux(os, arch) {
        return false;
    }
    match find_machine_type(cpu_info) {
        Ok(machine) => match machine {
            Machine::Unsupported => true,
            _ => false,
        },
        Err(_) => false,
    }
}

/// The full path of the library of the platform, below `base_dir`.
pub fn pv_library_path(base_dir: &str, os: Os, arch: Arch, cpu_info: &str) -> (r: Result<
    String,
    PorcupineError,
>)
    ensures
        match r {
            Ok(path) => spec_base_library_path(os, arch, cpu_info@) matches Some(variant)
                && path@ == joined(joined(base_dir@, "lib/"@), variant),
            Err(e) => spec_base_library_path(os, arch, cpu_info@) is None && configuration_error(
                e,
                platform_complaint(os, arch, cpu_info@),
            ),
        },
{
    match base_library_path(os, arch, cpu_info) {
        Ok(variant) => {
            let directory = join(base_dir, "lib/");
            Ok(join(directory.as_str(), variant.as_str()))
        },
        Err(e) => Err(e),
    }
}

/// The full path of the model parameter file, below `base_dir`.
pub fn pv_model_path(base_dir: &str) -> (path: String)
    ensures
        path@ == joined(base_dir@, "lib/common/porcupine_params.pv"@),
{
    join(base_dir, "lib/common/porcupine_params.pv")
}

/// The directory of the keyword files of a platform, below `base_dir`.
pub fn pv_keyword_dir(base_dir: &str, platform: &str) -> (path: String)
    ensures
        path@ == joined(joined(base_dir@, "resources/keyword_files/"@), platform@),
{
    let directory = join(base_dir, "resources/keyword_files/");
    join(directory.as_str(), platform)
}

/// The platform tag by which keyword files are chosen. `cpu_info` is the
/// processor description of the system; it is read only on Linux on ARM.
pub fn pv_platform(os: Os, arch: Arch, cpu_info: &str) -> (r: Result<String, PorcupineError>)
    ensures
        match r {
            Ok(tag) => spec_platform_tag(os, arch, cpu_info@) == Some(tag@),
            Err(e) => spec_platform_tag(os, arch, cpu_info@) is None && configuration_error(
                e,
                platform_complaint(os, arch, cpu_info@),
            ),
        },
{
    match os {
        Os::MacOs => Ok(String::from_str("mac")),
        Os::Windows => Ok(String::from_str("windows")),
        Os::Linux => match arch {
            Arch::X86_64 => Ok(String::from_str("linux")),
            Arch::Arm | Arch::Aarch64 => match find_machine_type(cpu_info) {
                Ok(machine) => {
                    if machine.is_raspberry_pi() {
                        Ok(String::from_str("raspberry-pi"))
                    } else if machine.is_jetson() {
                        Ok(String::from_str("jetson"))
                    } else {
                        match machine {
                            Machine::Beaglebone => Ok(String::from_str("beaglebone")),
                            _ => Err(platform_error(os, arch, cpu_info)),
                        }
                    }
                },
                Err(e) => Err(e),
            },
            Arch::Other => Err(platform_error(os, arch, cpu_info)),
        },
        Os::Other => Err(platform_error(os, arch, cpu_info)),
    }
}

} // verus!
