//! Graph identifier tokens.
//!
//! A graph identifier is a short token used to address types in the persisted
//! graph: it is non-empty, at most 255 characters long, and contains only
//! ASCII letters, digits, dashes and underscores.  Type names must be
//! encodable as identifiers; instance type names are parsed into identifiers
//! on demand when an edge key is derived.
//!
//! The rule is deliberately stricter than what a storage engine may accept
//! for its own identifiers: the empty string is rejected (an edge key must
//! never be derivable from an empty type name), and only ASCII alphanumerics
//! are admitted, counted per character.  A stored type name outside this
//! rule simply has no derivable key here; boundary code converting from a
//! more lenient store must treat such names as unencodable rather than pass
//! them through.

use vstd::prelude::*;

verus! {

/// A character allowed in a graph identifier: an ASCII letter or digit,
/// a dash, or an underscore.
pub open spec fn valid_identifier_char(c: char) -> bool {
    ||| c == '-'
    ||| c == '_'
    ||| ('0' as u32) <= (c as u32) <= ('9' as u32)
    ||| ('A' as u32) <= (c as u32) <= ('Z' as u32)
    ||| ('a' as u32) <= (c as u32) <= ('z' as u32)
}

/// A valid graph identifier: non-empty, at most 255 characters, and made of
/// identifier characters only.
pub open spec fn valid_identifier_seq(s: Seq<char>) -> bool {
    &&& 1 <= s.len() <= 255
    &&& forall|i: int| 0 <= i < s.len() ==> valid_identifier_char(#[trigger] s[i])
}

/// An identifier token derived from a type name.
///
/// The token is always in sync with the name it was derived from: it holds
/// exactly that name, and the name satisfies `valid_identifier_seq`.
pub struct Identifier {
    /// The identifier value.
    pub name: String,
}

impl Identifier {
    /// The token holds a valid identifier.
    pub open spec fn wf(self) -> bool {
        valid_identifier_seq(self.name@)
    }

    /// Parses a string into an identifier token.
    ///
    /// Returns the token exactly when the string is a valid identifier, and
    /// nothing otherwise: the derived token is a function of the name alone.
    pub fn parse(s: &str) -> (r: Option<Identifier>)
        ensures
            r is Some <==> valid_identifier_seq(s@),
            r matches Some(t) ==> t.wf() && t.name@ == s@,
    {
        let len = s.unicode_len();
        if len < 1 || len > 255 {
            return None;
        }
        let mut i: usize = 0;
        while i < len
            invariant
                len == s@.len(),
                1 <= len <= 255,
                i <= len,
                forall|j: int| 0 <= j < i ==> valid_identifier_char(#[trigger] s@[j]),
            decreases len - i,
        {
            let c = s.get_char(i);
            let u = c as u32;
            let ok = c == '-' || c == '_' || (48 <= u && u <= 57) || (65 <= u && u <= 90)
                || (97 <= u && u <= 122);
            if !ok {
                assert(!valid_identifier_char(s@[i as int]));
                return None;
            }
            assert(valid_identifier_char(s@[i as int]));
            i += 1;
        }
        Some(Identifier { name: s.to_string() })
    }

    /// Reads the identifier value.
    pub fn as_str(&self) -> (r: &str)
        ensures
            r@ == self.name@,
    {
        self.name.as_str()
    }
}

} // verus!
