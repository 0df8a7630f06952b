//! The canonical identity format of the local chain.
//!
//! Recipients and the trusted gateway are named by identities: short
//! lower-case alphanumeric strings, as the local chain's address format
//! requires. Every identity that enters the configuration or a transfer
//! instruction is validated against this one format.

use vstd::prelude::*;
use vstd::string::StrSliceExecFns;

verus! {

/// Characters an identity may contain: ASCII lower-case letters and digits.
pub open spec fn is_id_char(c: char) -> bool {
    (97 <= c as int && c as int <= 122) || (48 <= c as int && c as int <= 57)
}

/// ASCII lower-case letters, required in an identity's first position.
pub open spec fn is_lower_letter(c: char) -> bool {
    97 <= c as int && c as int <= 122
}

/// The canonical identity format: 3 to 90 characters, all lower-case
/// alphanumeric, beginning with a letter.
pub open spec fn valid_identity(s: Seq<char>) -> bool {
    &&& 3 <= s.len() <= 90
    &&& is_lower_letter(s[0])
    &&& forall|i: int| 0 <= i < s.len() ==> is_id_char(#[trigger] s[i])
}

/// Decides whether a string is a well-formed identity of the local chain.
pub fn validate_identity(s: &str) -> (b: bool)
    ensures
        b == valid_identity(s@),
{
    let n = s.unicode_len();
    if n < 3 || n > 90 {
        return false;
    }
    let c0 = s.get_char(0);
    let u0 = c0 as u32;
    if !(97 <= u0 && u0 <= 122) {
        return false;
    }
    let mut i: usize = 1;
    while i < n
        invariant
            3 <= n <= 90,
            n == s@.len(),
            1 <= i <= n,
            is_lower_letter(s@[0]),
            forall|j: int| 0 <= j < i ==> is_id_char(#[trigger] s@[j]),
        decreases n - i,
    {
        let c = s.get_char(i);
        let u = c as u32;
        if !((97 <= u && u <= 122) || (48 <= u && u <= 57)) {
            return false;
        }
        i += 1;
    }
    true
}

} // verus!
