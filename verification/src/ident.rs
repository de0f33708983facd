//! Identifiers for new records.

use vstd::prelude::*;

verus! {

/// `c` is a decimal digit or one of the letters `a` to `f`.
pub open spec fn is_lower_hex(c: char) -> bool {
    ||| c == '0'
    ||| c == '1'
    ||| c == '2'
    ||| c == '3'
    ||| c == '4'
    ||| c == '5'
    ||| c == '6'
    ||| c == '7'
    ||| c == '8'
    ||| c == '9'
    ||| c == 'a'
    ||| c == 'b'
    ||| c == 'c'
    ||| c == 'd'
    ||| c == 'e'
    ||| c == 'f'
}

/// `i` is one of the four places at which the text of a UUID has a hyphen.
pub open spec fn is_hyphen_place(i: int) -> bool {
    i == 8 || i == 13 || i == 18 || i == 23
}

/// `s` is the text of a version 4 UUID: 36 characters in the groups
/// 8-4-4-4-12, lower-case hexadecimal digits between the hyphens, the
/// version digit `4` and a variant digit from `8` to `b`.
pub open spec fn is_uuid_v4_text(s: Seq<char>) -> bool {
    &&& s.len() == 36
    &&& forall|i: int|
        0 <= i < 36 ==> if is_hyphen_place(i) {
            #[trigger] s[i] == '-'
        } else {
            is_lower_hex(s[i])
        }
    &&& s[14] == '4'
    &&& (s[19] == '8' || s[19] == '9' || s[19] == 'a' || s[19] == 'b')
}

/// Draws a random identifier with `uuid::Uuid::new_v4` and renders it with
/// the `Display` impl of `uuid::Uuid`.
///
/// Trusted: the text has the hyphenated lower-case form of a version 4
/// UUID. Nothing is claimed about which identifier comes back; in
/// particular two calls may return the same one. The call panics when the
/// operating system cannot supply random bytes.
#[verifier::external_body]
pub(crate) fn fresh_id() -> (id: String)
    ensures
        is_uuid_v4_text(id@),
{
    uuid::Uuid::new_v4().to_string()
}

} // verus!
