//! Character classes that the field rules are stated over.
//!
//! The classes are those of the Unicode character database, as `char`'s
//! methods in the standard library decide them.

use vstd::prelude::*;

verus! {

/// Whether `c` has the Unicode property Alphabetic.
pub uninterp spec fn alphabetic(c: char) -> bool;

/// Whether `c` is in one of the Unicode general categories for numbers.
pub uninterp spec fn numeric(c: char) -> bool;

/// Whether `c` has the Unicode property Lowercase.
pub uninterp spec fn lowercase(c: char) -> bool;

/// Whether `c` has the Unicode property Uppercase.
pub uninterp spec fn uppercase(c: char) -> bool;

/// `char::is_alphabetic` decides the property Alphabetic. The claim is only
/// that its answer depends on the character alone.
pub assume_specification[ char::is_alphabetic ](c: char) -> (b: bool)
    ensures
        b == alphabetic(c),
;

/// `char::is_numeric` decides membership in the number categories. The claim
/// is only that its answer depends on the character alone.
pub assume_specification[ char::is_numeric ](c: char) -> (b: bool)
    ensures
        b == numeric(c),
;

/// `char::is_lowercase` decides the property Lowercase. The claim is only
/// that its answer depends on the character alone.
pub assume_specification[ char::is_lowercase ](c: char) -> (b: bool)
    ensures
        b == lowercase(c),
;

/// `char::is_uppercase` decides the property Uppercase. The claim is only
/// that its answer depends on the character alone.
pub assume_specification[ char::is_uppercase ](c: char) -> (b: bool)
    ensures
        b == uppercase(c),
;

/// The length of `text` in bytes, as UTF-8 holds it.
pub open spec fn byte_len(text: Seq<char>) -> nat {
    vstd::utf8::encode_utf8(text).len()
}

} // verus!
