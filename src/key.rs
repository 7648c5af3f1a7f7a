//! Identifiers used as names and keys throughout the manifests.

use vstd::prelude::*;

verus! {

/// A character that may stand in a key: an ASCII letter or digit, `_`, `-`
/// or `.`.
pub open spec fn is_key_char(c: char) -> bool {
    ('a' <= c && c <= 'z') || ('A' <= c && c <= 'Z') || ('0' <= c && c <= '9') || c == '_' || c
        == '-' || c == '.'
}

/// A text that a key may hold: not empty, and made of key characters only.
pub open spec fn is_valid_key(s: Seq<char>) -> bool {
    s.len() > 0 && forall|i: int| 0 <= i < s.len() ==> is_key_char(#[trigger] s[i])
}

/// Why a text is not a key.
#[derive(Debug, Clone, Copy, PartialEq, Eq, Structural)]
pub enum KeyError {
    Empty,
    /// A character outside the key set, at this character position.
    BadCharacter(usize),
}

/// The first position in `s` that holds no key character, if any.
pub open spec fn first_bad_char(s: Seq<char>, i: int) -> Option<int>
    decreases s.len() - i,
{
    if i < 0 || i >= s.len() {
        None
    } else if !is_key_char(s[i]) {
        Some(i)
    } else {
        first_bad_char(s, i + 1)
    }
}

/// The error that a text which is not a key gives: `Empty`, or the position
/// of its first character outside the key set.
pub open spec fn key_error(s: Seq<char>) -> KeyError {
    if s.len() == 0 {
        KeyError::Empty
    } else {
        KeyError::BadCharacter(first_bad_char(s, 0)->0 as usize)
    }
}

/// An identifier that is never empty and holds only key characters, so it
/// can stand in a path or a document unquoted.
#[derive(Debug, PartialEq, Eq)]
pub struct ValidKey {
    text: String,
}

impl View for ValidKey {
    type V = Seq<char>;

    closed spec fn view(&self) -> Seq<char> {
        self.text@
    }
}

fn key_char(c: char) -> (b: bool)
    ensures
        b == is_key_char(c),
{
    ('a' <= c && c <= 'z') || ('A' <= c && c <= 'Z') || ('0' <= c && c <= '9') || c == '_' || c
        == '-' || c == '.'
}

proof fn lemma_first_bad_char(s: Seq<char>, i: int)
    requires
        0 <= i <= s.len(),
    ensures
        first_bad_char(s, i) == None::<int> <==> forall|k: int| i <= k < s.len() ==> is_key_char(
            #[trigger] s[k],
        ),
    decreases s.len() - i,
{
    if i < s.len() {
        lemma_first_bad_char(s, i + 1);
    }
}

impl ValidKey {
    #[verifier::type_invariant]
    spec fn well_formed(self) -> bool {
        is_valid_key(self.text@)
    }

    /// The key spelled by `text`: an error if it is empty, or names the first
    /// character that may not stand in a key.
    pub fn new(text: &str) -> (r: Result<ValidKey, KeyError>)
        ensures
            is_valid_key(text@) ==> r is Ok && r->Ok_0@ == text@,
            !is_valid_key(text@) ==> r == Err::<ValidKey, KeyError>(key_error(text@)),
    {
        let n = text.unicode_len();
        if n == 0 {
            return Err(KeyError::Empty);
        }
        let mut i: usize = 0;
        while i < n
            invariant
                n == text@.len(),
                i <= n,
                first_bad_char(text@, 0) == first_bad_char(text@, i as int),
                forall|k: int| 0 <= k < i ==> is_key_char(#[trigger] text@[k]),
            decreases n - i,
        {
            if !key_char(text.get_char(i)) {
                proof {
                    lemma_first_bad_char(text@, 0);
                }
                return Err(KeyError::BadCharacter(i));
            }
            i = i + 1;
        }
        proof {
            lemma_first_bad_char(text@, 0);
        }
        Ok(ValidKey { text: String::from_str(text) })
    }

    /// The key's text.
    pub fn as_str(&self) -> (s: &str)
        ensures
            s@ == self@,
            is_valid_key(s@),
    {
        proof {
            use_type_invariant(self);
        }
        self.text.as_str()
    }
}

impl Clone for ValidKey {
    fn clone(&self) -> (r: ValidKey)
        ensures
            r@ == self@,
    {
        proof {
            use_type_invariant(self);
        }
        ValidKey { text: self.text.clone() }
    }
}

} // verus!
