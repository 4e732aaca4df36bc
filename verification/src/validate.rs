//! Syntactic rules for resource names.

use vstd::prelude::*;

verus! {

/// The shortest accepted name, in characters.
pub const MIN_NAME_LEN: usize = 2;

/// The longest accepted name, in characters.
pub const MAX_NAME_LEN: usize = 32;

/// Whether `char::is_alphanumeric` holds of a character. The tables of
/// the Unicode standard decide, so the predicate is named and left
/// unfolded.
pub uninterp spec fn is_alphanumeric(c: char) -> bool;

/// `char::is_alphanumeric` of the standard library. The result depends on
/// the character alone; it is the value of [`is_alphanumeric`].
pub assume_specification[ char::is_alphanumeric ](c: char) -> (r: bool)
    ensures
        r == is_alphanumeric(c),
;

/// The message for a name whose length is out of range.
pub open spec fn length_message() -> Seq<char> {
    "Resource names must be between 2-32 characters in length"@
}

/// The message for a name that holds a character that is neither a letter
/// nor a digit.
pub open spec fn alphanumeric_message() -> Seq<char> {
    "Resource names must only contain alphanumeric characters"@
}

/// The length rule: between two and thirty-two characters, both included.
pub open spec fn length_in_range(len: nat) -> bool {
    MIN_NAME_LEN <= len <= MAX_NAME_LEN
}

/// Every character of the text is alphanumeric.
pub open spec fn all_alphanumeric(text: Seq<char>) -> bool {
    forall|i: int| 0 <= i < text.len() ==> is_alphanumeric(#[trigger] text[i])
}

/// A name is valid when both rules hold of it. Its length is the number
/// of its characters, whatever each takes to store.
pub open spec fn valid_name(text: Seq<char>) -> bool {
    length_in_range(text.len()) && all_alphanumeric(text)
}

/// The rules in their order, on what has been measured of a name: the
/// number of its characters and whether all of them are alphanumeric.
/// The length rule is tested first, so a name that breaks both rules is
/// reported for its length.
pub fn name_verdict(length: usize, alphanumeric: bool) -> (verdict: Result<(), String>)
    ensures
        verdict is Ok <==> length_in_range(length as nat) && alphanumeric,
        !length_in_range(length as nat) ==> verdict is Err && verdict->Err_0@
            == length_message(),
        length_in_range(length as nat) && !alphanumeric ==> verdict is Err && verdict->Err_0@
            == alphanumeric_message(),
{
    if length < MIN_NAME_LEN || length > MAX_NAME_LEN {
        return Err("Resource names must be between 2-32 characters in length".to_string());
    }
    if !alphanumeric {
        return Err("Resource names must only contain alphanumeric characters".to_string());
    }
    Ok(())
}

/// Scans a text for a character that is not alphanumeric.
pub fn only_alphanumeric(text: &str) -> (all: bool)
    ensures
        all == all_alphanumeric(text@),
{
    let n: usize = text.unicode_len();
    let mut i: usize = 0;
    while i < n
        invariant
            n == text@.len(),
            i <= n,
            forall|j: int| 0 <= j < i ==> is_alphanumeric(#[trigger] text@[j]),
        decreases n - i,
    {
        let c = text.get_char(i);
        if !c.is_alphanumeric() {
            return false;
        }
        i = i + 1;
    }
    true
}

/// Checks a caller-supplied resource name. The name must be between two
/// and thirty-two characters long and consist of alphanumeric characters
/// only; the first rule that fails gives the message.
pub fn validate_resource_name(resource: &str) -> (verdict: Result<(), String>)
    ensures
        verdict is Ok <==> valid_name(resource@),
        !length_in_range(resource@.len()) ==> verdict is Err && verdict->Err_0@
            == length_message(),
        length_in_range(resource@.len()) && !all_alphanumeric(resource@) ==> verdict is Err
            && verdict->Err_0@ == alphanumeric_message(),
{
    let len: usize = resource.unicode_len();
    if len < MIN_NAME_LEN || len > MAX_NAME_LEN {
        return name_verdict(len, false);
    }
    name_verdict(len, only_alphanumeric(resource))
}

} // verus!
