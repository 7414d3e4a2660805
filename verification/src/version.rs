use vstd::prelude::*;

verus! {

/// Version reported to clients.
pub const MEMCRS_VERSION: &'static str = "0.0.1";

/// The version text is short ASCII, one byte per character.
pub proof fn lemma_version_ascii()
    ensures
        vstd::utf8::is_ascii_chars(MEMCRS_VERSION@),
        vstd::string::StringSliceAdditionalSpecFns::spec_bytes(MEMCRS_VERSION).len()
            == MEMCRS_VERSION@.len(),
        MEMCRS_VERSION@.len() < 64,
{
    reveal_strlit("0.0.1");
    vstd::utf8::is_ascii_chars_encode_utf8(MEMCRS_VERSION@);
}

} // verus!
