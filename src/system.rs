//! What the NGX session needs from the caller before it starts: the Vulkan
//! extensions it requires, its project identifier and its data path, in the
//! encodings that the native SDK reads.
use vstd::prelude::*;
use vstd::utf8::encode_utf8;
use crate::parameters::is_other_error;
use crate::result::{Error, Result};

verus! {

/// Whether a byte string holds a nul byte.
pub open spec fn has_nul(bytes: Seq<u8>) -> bool {
    exists|i: int| 0 <= i < bytes.len() && bytes[i] == 0
}

/// The bytes of a C string holding `s`: its UTF-8 encoding and a nul.
pub open spec fn spec_c_string(s: Seq<char>) -> Seq<u8> {
    encode_utf8(s).push(0)
}

/// The message of a list of extension names that cannot be C strings.
pub open spec fn extension_conversion_message() -> Seq<char> {
    "Couldn't convert the extensions to CStrings."@
}

/// Every string of the list can be a C string: none holds a nul byte.
pub open spec fn all_c_compatible(data: Seq<String>) -> bool {
    forall|i: int| 0 <= i < data.len() ==> !has_nul(encode_utf8(#[trigger] data[i]@))
}

/// The bytes of a C string holding `s`, or `None` when `s` holds a nul byte.
pub fn c_string(s: &str) -> (r: Option<Vec<u8>>)
    ensures
        r is Some <==> !has_nul(encode_utf8(s@)),
        r is Some ==> r->Some_0@ == spec_c_string(s@),
{
    let bytes: &[u8] = s.as_bytes();
    let mut out: Vec<u8> = Vec::new();
    let mut i: usize = 0;
    while i < bytes.len()
        invariant
            i <= bytes@.len(),
            bytes@ == encode_utf8(s@),
            out@ == bytes@.subrange(0, i as int),
            forall|j: int| 0 <= j < i ==> bytes@[j] != 0,
        decreases bytes@.len() - i,
    {
        if bytes[i] == 0 {
            return None;
        }
        out.push(bytes[i]);
        i = i + 1;
    }
    out.push(0);
    assert(bytes@.subrange(0, bytes@.len() as int) =~= bytes@);
    Some(out)
}

/// Converts each string into the bytes of a C string; fails when any of them
/// holds a nul byte.
pub fn convert_slice_of_strings_to_cstrings(data: &Vec<String>) -> (r: Result<Vec<Vec<u8>>>)
    ensures
        r is Ok <==> all_c_compatible(data@),
        r is Ok ==> r->Ok_0@.len() == data@.len() && forall|i: int|
            0 <= i < data@.len() ==> (#[trigger] r->Ok_0@[i])@ == spec_c_string(data@[i]@),
        r is Err ==> is_other_error(r, extension_conversion_message()),
{
    let mut strings: Vec<Vec<u8>> = Vec::new();
    let mut i: usize = 0;
    while i < data.len()
        invariant
            i <= data@.len(),
            strings@.len() == i,
            forall|j: int| 0 <= j < i ==> !has_nul(encode_utf8(#[trigger] data@[j]@)),
            forall|j: int| 0 <= j < i ==> (#[trigger] strings@[j])@ == spec_c_string(data@[j]@),
        decreases data@.len() - i,
    {
        match c_string(data[i].as_str()) {
            Some(bytes) => strings.push(bytes),
            None => {
                return Err(Error::Other(String::from_str("Couldn't convert the extensions to CStrings.")));
            },
        }
        i = i + 1;
    }
    Ok(strings)
}

/// Vulkan extensions required for the NVIDIA NGX operation.
#[derive(Debug, Clone)]
pub struct RequiredExtensions {
    /// Vulkan device extensions required for NVIDIA NGX.
    pub device: Vec<String>,
    /// Vulkan instance extensions required for NVIDIA NGX.
    pub instance: Vec<String>,
}

impl RequiredExtensions {
    /// The device extensions as C strings.
    pub fn get_device_extensions_c_strings(&self) -> (r: Result<Vec<Vec<u8>>>)
        ensures
            r is Ok <==> all_c_compatible(self.device@),
            r is Ok ==> r->Ok_0@.len() == self.device@.len() && forall|i: int|
                0 <= i < self.device@.len() ==> (#[trigger] r->Ok_0@[i])@ == spec_c_string(self.device@[i]@),
            r is Err ==> is_other_error(r, extension_conversion_message()),
    {
        convert_slice_of_strings_to_cstrings(&self.device)
    }

    /// The instance extensions as C strings.
    pub fn get_instance_extensions_c_strings(&self) -> (r: Result<Vec<Vec<u8>>>)
        ensures
            r is Ok <==> all_c_compatible(self.instance@),
            r is Ok ==> r->Ok_0@.len() == self.instance@.len() && forall|i: int|
                0 <= i < self.instance@.len() ==> (#[trigger] r->Ok_0@[i])@ == spec_c_string(self.instance@[i]@),
            r is Err ==> is_other_error(r, extension_conversion_message()),
    {
        convert_slice_of_strings_to_cstrings(&self.instance)
    }
}

/// The lowercase hexadecimal digit of a number below sixteen.
pub open spec fn hex_digit(n: u8) -> char {
    if n == 0 { '0' } else if n == 1 { '1' } else if n == 2 { '2' } else if n == 3 { '3' }
    else if n == 4 { '4' } else if n == 5 { '5' } else if n == 6 { '6' } else if n == 7 { '7' }
    else if n == 8 { '8' } else if n == 9 { '9' } else if n == 10 { 'a' } else if n == 11 { 'b' }
    else if n == 12 { 'c' } else if n == 13 { 'd' } else if n == 14 { 'e' } else { 'f' }
}

/// Two lowercase hexadecimal digits for each byte, high half first.
pub open spec fn simple_hex(bytes: Seq<u8>) -> Seq<char> {
    Seq::new(
        2 * bytes.len(),
        |k: int| hex_digit(if k % 2 == 0 { bytes[k / 2] / 16 } else { bytes[k / 2] % 16 }),
    )
}

/// The hyphenated text of a UUID: its hexadecimal digits in groups of 8, 4,
/// 4, 4 and 12, joined by hyphens.
pub open spec fn hyphenated(bytes: Seq<u8>) -> Seq<char> {
    let h = simple_hex(bytes);
    h.subrange(0, 8) + seq!['-'] + h.subrange(8, 12) + seq!['-'] + h.subrange(12, 16) + seq!['-']
        + h.subrange(16, 20) + seq!['-'] + h.subrange(20, 32)
}

/// Relies on `uuid::Uuid::new_v4`: sixteen random bytes, with the version
/// nibble set to 4 and the RFC 4122 variant bits set.
#[verifier::external_body]
fn random_uuid_bytes() -> (r: [u8; 16])
    ensures
        r[6] / 16 == 4,
        r[8] / 64 == 2,
{
    *uuid::Uuid::new_v4().as_bytes()
}

/// Relies on `uuid::Uuid::from_bytes` and its `Display`, which writes the
/// hyphenated lowercase form.
#[verifier::external_body]
fn uuid_text(bytes: [u8; 16]) -> (r: String)
    ensures
        r@ == hyphenated(bytes@),
{
    uuid::Uuid::from_bytes(bytes).to_string()
}

/// Relies on `widestring::U32String::from_str`: one UTF-32 unit per
/// character, its scalar value.
#[verifier::external_body]
fn utf32_units(s: &str) -> (r: Vec<u32>)
    ensures
        r@.len() == s@.len(),
        forall|i: int| 0 <= i < s@.len() ==> r@[i] == #[trigger] s@[i] as u32,
{
    widestring::U32String::from_str(s).into_vec()
}

/// The project identifier handed to the native initialisation: the given
/// UUID, or a fresh random version-4 one when none is given, in hyphenated
/// form.
pub fn project_id_text(project_id: Option<[u8; 16]>) -> (r: String)
    ensures
        project_id is Some ==> r@ == hyphenated(project_id->Some_0@),
        exists|bytes: Seq<u8>| bytes.len() == 16 && r@ == hyphenated(bytes),
        project_id is None ==> exists|bytes: Seq<u8>|
            bytes.len() == 16 && bytes[6] / 16 == 4 && bytes[8] / 64 == 2 && r@ == hyphenated(bytes),
        r@.len() == 36,
{
    let bytes = match project_id {
        Some(bytes) => bytes,
        None => random_uuid_bytes(),
    };
    uuid_text(bytes)
}

/// The nul-terminated wide string, one UTF-32 unit per character, that the
/// native initialisation reads as its data path.
pub fn wide_path(path: &str) -> (r: Vec<u32>)
    ensures
        r@.len() == path@.len() + 1,
        forall|i: int| 0 <= i < path@.len() ==> r@[i] == #[trigger] path@[i] as u32,
        r@[path@.len() as int] == 0,
{
    let mut units = utf32_units(path);
    units.push(0);
    units
}

} // verus!
