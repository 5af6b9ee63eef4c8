//! Conversion of host text into the byte strings the native side reads.
//!
//! A native string is the UTF-8 encoding of a text followed by one zero
//! byte. A text whose encoding holds a zero byte has no native string.

use vstd::prelude::*;
use vstd::string::StringSliceAdditionalSpecFns;
use vstd::utf8::*;
use crate::error::{PorcupineError, PorcupineErrorStatus};
use crate::text::{decimal, decimal_string, first_at, texts};

verus! {

/// The native string of a text: its encoding and a closing zero byte.
/// There is none where the encoding itself holds a zero byte.
pub open spec fn native_string(text: Seq<char>) -> Option<Seq<u8>> {
    let bytes = encode_utf8(text);
    if bytes.contains(0u8) {
        None
    } else {
        Some(bytes.push(0u8))
    }
}

/// Whether bytes have the shape of a native string: they end with a zero
/// byte and hold no other.
pub open spec fn is_native_string(bytes: Seq<u8>) -> bool {
    &&& bytes.len() > 0
    &&& bytes.last() == 0u8
    &&& forall|i: int| 0 <= i < bytes.len() - 1 ==> bytes[i] != 0u8
}

/// The native string of a text has the shape of one.
pub proof fn native_string_has_its_shape(text: Seq<char>)
    requires
        native_string(text) is Some,
    ensures
        is_native_string(native_string(text)->0),
{
    let bytes = encode_utf8(text);
    assert forall|i: int| 0 <= i < bytes.len() implies bytes[i] != 0u8 by {
        if bytes[i] == 0u8 {
            assert(bytes.contains(0u8));
        }
    }
}

/// The native strings of several texts, in order; none if any text has none.
pub open spec fn native_strings(all: Seq<Seq<char>>) -> Option<Seq<Seq<u8>>> {
    if forall|i: int| 0 <= i < all.len() ==> (#[trigger] native_string(all[i])) is Some {
        Some(Seq::new(all.len(), |i: int| native_string(all[i])->0))
    } else {
        None
    }
}

/// What is said of a text that has no native string, given where its first
/// zero byte is.
pub open spec fn nul_complaint(subject: Seq<char>, position: nat) -> Seq<char> {
    subject + " is not a valid C string nul byte found in provided data at position: "@ + decimal(
        position,
    )
}

/// The views of a sequence of byte vectors.
pub open spec fn byte_strings(vectors: Seq<Vec<u8>>) -> Seq<Seq<u8>> {
    Seq::new(vectors.len(), |i: int| vectors[i]@)
}

/// Encodes a text as a native string. Fails with the position of the first
/// zero byte where the text holds one.
pub fn to_native_string(text: &str) -> (r: Result<Vec<u8>, usize>)
    ensures
        match r {
            Ok(bytes) => native_string(text@) == Some(bytes@),
            Err(position) => native_string(text@) is None && first_at(
                text.spec_bytes(),
                0u8,
                position as int,
            ),
        },
{
    let source = text.as_bytes();
    let mut out: Vec<u8> = Vec::new();
    let mut i: usize = 0;
    while i < source.len()
        invariant
            source@ == text.spec_bytes(),
            i <= source@.len(),
            out@ == source@.take(i as int),
            forall|j: int| 0 <= j < i ==> source@[j] != 0u8,
        decreases source@.len() - i,
    {
        let byte = source[i];
        if byte == 0 {
            return Err(i);
        }
        out.push(byte);
        assert(out@ =~= source@.take(i + 1));
        i += 1;
    }
    assert(source@.take(i as int) =~= source@);
    out.push(0);
    Ok(out)
}

/// Encodes a path as a native string. A path that holds a zero byte is
/// rejected as an argument error that says where the byte is.
pub fn pathbuf_to_cstring(path: &str) -> (r: Result<Vec<u8>, PorcupineError>)
    ensures
        match r {
            Ok(bytes) => native_string(path@) == Some(bytes@),
            Err(e) => {
                &&& native_string(path@) is None
                &&& e@.status == PorcupineErrorStatus::ArgumentError
                &&& e@.message_stack.len() == 0
                &&& exists|position: nat|
                    first_at(path.spec_bytes(), 0u8, position as int) && e@.message
                        == nul_complaint("Path"@, position)
            },
        },
{
    match to_native_string(path) {
        Ok(bytes) => Ok(bytes),
        Err(position) => Err(nul_error("Path", position)),
    }
}

/// The argument error for a text that has no native string.
pub fn nul_error(subject: &str, position: usize) -> (e: PorcupineError)
    ensures
        e@.status == PorcupineErrorStatus::ArgumentError,
        e@.message == nul_complaint(subject@, position as nat),
        e@.message_stack.len() == 0,
{
    let mut message = String::from_str(subject);
    message.append(" is not a valid C string nul byte found in provided data at position: ");
    let digits = decimal_string(position as u64);
    message.append(digits.as_str());
    PorcupineError::new(PorcupineErrorStatus::ArgumentError, message.as_str())
}

/// Encodes every path as a native string, in order. The first path that has
/// none decides the error.
pub fn paths_to_cstrings(paths: &Vec<String>) -> (r: Result<Vec<Vec<u8>>, PorcupineError>)
    ensures
        match r {
            Ok(all) => native_strings(texts(paths@)) == Some(byte_strings(all@)),
            Err(e) => {
                &&& native_strings(texts(paths@)) is None
                &&& e@.status == PorcupineErrorStatus::ArgumentError
                &&& e@.message_stack.len() == 0
                &&& exists|k: int, position: nat|
                    {
                        &&& 0 <= k < paths@.len()
                        &&& forall|j: int| 0 <= j < k ==> (#[trigger] native_string(
                            texts(paths@)[j],
                        )) is Some
                        &&& first_at(encode_utf8(texts(paths@)[k]), 0u8, position as int)
                        &&& e@.message == nul_complaint("Path"@, position)
                    }
            },
        },
{
    let mut all: Vec<Vec<u8>> = Vec::new();
    let mut i: usize = 0;
    while i < paths.len()
        invariant
            i <= paths@.len(),
            all@.len() == i,
            forall|j: int| 0 <= j < i ==> native_string(texts(paths@)[j]) == Some(all@[j]@),
        decreases paths@.len() - i,
    {
        match pathbuf_to_cstring(paths[i].as_str()) {
            Ok(bytes) => {
                all.push(bytes);
            },
            Err(e) => {
                proof {
                    assert(texts(paths@)[i as int] == paths@[i as int]@);
                    assert(native_string(texts(paths@)[i as int]) is None);
                }
                return Err(e);
            },
        }
        i += 1;
    }
    proof {
        let expected = Seq::new(texts(paths@).len(), |i: int| native_string(texts(paths@)[i])->0);
        assert(byte_strings(all@) =~= expected);
    }
    Ok(all)
}

} // verus!
