//! Text on its way to the native library, and checks of the traits that the
//! crate's types are meant to have.

use vstd::prelude::*;
use vstd::string::StringSliceAdditionalSpecFns;
use vstd::utf8::{decode_utf8, valid_utf8};

pub mod traits;

verus! {

/// Whether `bytes` can be handed to the native library as a string: the
/// native side ends a string at the first zero byte, so the text itself must
/// hold none.
pub open spec fn nul_free(bytes: Seq<u8>) -> bool {
    forall|i: int| 0 <= i < bytes.len() ==> bytes[i] != 0
}

/// Whether `s` holds no zero byte.
pub fn is_nul_free(s: &str) -> (free: bool)
    ensures
        free == nul_free(s.spec_bytes()),
{
    let bytes = s.as_bytes();
    let mut i: usize = 0;
    while i < bytes.len()
        invariant
            i <= bytes.len(),
            bytes@ == s.spec_bytes(),
            forall|k: int| 0 <= k < i ==> bytes@[k] != 0,
        decreases bytes.len() - i,
    {
        if bytes[i] == 0 {
            return false;
        }
        i = i + 1;
    }
    true
}

/// The bytes of `s` followed by the zero byte that ends a native string.
pub fn str_to_cstring(s: &str) -> (bytes: Vec<u8>)
    requires
        nul_free(s.spec_bytes()),
    ensures
        bytes@ == s.spec_bytes().push(0),
{
    let text = s.as_bytes();
    let mut bytes: Vec<u8> = Vec::new();
    let mut i: usize = 0;
    while i < text.len()
        invariant
            i <= text.len(),
            text@ == s.spec_bytes(),
            bytes@ == text@.take(i as int),
        decreases text.len() - i,
    {
        bytes.push(text[i]);
        assert(text@.take(i + 1) =~= text@.take(i as int).push(text@[i as int]));
        i = i + 1;
    }
    assert(text@.take(i as int) =~= text@);
    bytes.push(0);
    bytes
}

/// The text that the bytes of a native string are read as: the characters the
/// bytes encode in UTF-8, with the replacement character in the place of
/// each stretch that encodes none.
pub uninterp spec fn lossy_utf8(bytes: Seq<u8>) -> Seq<char>;

/// Calls `String::from_utf8_lossy`, which decodes `bytes` as UTF-8 and puts
/// U+FFFD in the place of invalid sequences. The result depends on the bytes
/// alone and is named `lossy_utf8`; for bytes that are valid UTF-8 it is the
/// text they encode, unchanged.
#[verifier::external_body]
fn decode_lossy(bytes: &[u8]) -> (text: String)
    ensures
        text@ == lossy_utf8(bytes@),
        valid_utf8(bytes@) ==> text@ == decode_utf8(bytes@),
{
    String::from_utf8_lossy(bytes).into_owned()
}

/// The owned text for the bytes of a native string, terminator not included:
/// for valid UTF-8 the text that the bytes encode, else that text with the
/// replacement character where the bytes encode none. The caller reads the
/// bytes from the native string and releases it once this has returned.
pub fn cxstring_into_string(bytes: &[u8]) -> (text: String)
    ensures
        text@ == lossy_utf8(bytes@),
        valid_utf8(bytes@) ==> text@ == decode_utf8(bytes@),
{
    decode_lossy(bytes)
}

} // verus!
