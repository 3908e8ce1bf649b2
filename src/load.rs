//! The load interceptor: which units are protected, and what content a load
//! request hands on to the host's compile step.
use vstd::prelude::*;
use crate::engine::{decrypt_spec, decrypt_string, text_result, DecryptError, SymmetricKey};
use crate::text::{contains, ends_with, str_contains, str_ends_with};

verus! {

/// The path segment of vendored third-party dependencies.
pub const VENDORED_SEGMENT: &'static str = "node_modules";

/// The extension of the runtime's scripts.
pub const SCRIPT_EXTENSION: &'static str = ".js";

/// A unit is protected when its path holds no vendored-dependency segment
/// and ends in the script extension.
pub open spec fn is_protected_path(path: Seq<char>) -> bool {
    !contains(path, VENDORED_SEGMENT@) && ends_with(path, SCRIPT_EXTENSION@)
}

/// The content that a load request hands on.
pub open spec fn intercept_spec(key: Seq<u8>, path: Seq<char>, content: Seq<char>) -> Result<
    Seq<char>,
    DecryptError,
> {
    if is_protected_path(path) {
        decrypt_spec(key, content)
    } else {
        Ok(content)
    }
}

/// Classifies a unit by its path alone.
pub fn is_protected(path: &str) -> (r: bool)
    ensures
        r == is_protected_path(path@),
{
    !str_contains(path, VENDORED_SEGMENT) && str_ends_with(path, SCRIPT_EXTENSION)
}

/// The content to hand to the host's compile step for a loaded unit: the
/// decrypted text of a protected unit, the content itself for any other.
pub fn intercept(key: &SymmetricKey, path: &str, content: &str) -> (r: Result<String, DecryptError>)
    requires
        key.wf(),
    ensures
        text_result(r) == intercept_spec(key@, path@, content@),
{
    if is_protected(path) {
        decrypt_string(key, content)
    } else {
        Ok(content.to_owned())
    }
}

/// Classification does not look at content: two loads of one path are both
/// protected or both passed through, and a pass-through load hands on its
/// content unchanged whatever it holds.
pub proof fn lemma_classification_by_path(key: Seq<u8>, path: Seq<char>, c1: Seq<char>, c2: Seq<char>)
    ensures
        !is_protected_path(path) ==> intercept_spec(key, path, c1) == Ok::<Seq<char>, DecryptError>(c1)
            && intercept_spec(key, path, c2) == Ok::<Seq<char>, DecryptError>(c2),
        is_protected_path(path) ==> intercept_spec(key, path, c1) == decrypt_spec(key, c1)
            && intercept_spec(key, path, c2) == decrypt_spec(key, c2),
{
}

} // verus!
