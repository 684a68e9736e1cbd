use vstd::prelude::*;

verus! {

/// The longest text an identifier may hold.
pub const MAX_IDENTIFIER_LEN: usize = 32;

/// The characters an identifier may contain: ASCII letters, digits, `_` and `.`.
pub open spec fn is_identifier_char(c: char) -> bool {
    ('a' <= c && c <= 'z') || ('A' <= c && c <= 'Z') || ('0' <= c && c <= '9') || c == '_'
        || c == '.'
}

/// Whether a text is a well-formed identifier.
pub open spec fn is_identifier_text(t: Seq<char>) -> bool {
    &&& t.len() <= MAX_IDENTIFIER_LEN
    &&& forall|i: int| 0 <= i < t.len() ==> is_identifier_char(#[trigger] t[i])
}

fn identifier_char(c: char) -> (r: bool)
    ensures
        r == is_identifier_char(c),
{
    ('a' <= c && c <= 'z') || ('A' <= c && c <= 'Z') || ('0' <= c && c <= '9') || c == '_'
        || c == '.'
}

/// A short token over a fixed alphabet, compared by value.
#[derive(Debug, PartialEq, Eq, Hash)]
pub struct Identifier {
    text: String,
}

impl View for Identifier {
    type V = Seq<char>;

    closed spec fn view(&self) -> Seq<char> {
        self.text@
    }
}

impl Clone for Identifier {
    fn clone(&self) -> (r: Self)
        ensures
            r@ == self@,
    {
        proof {
            use_type_invariant(self);
        }
        Identifier { text: self.text.clone() }
    }
}

impl Identifier {
    #[verifier::type_invariant]
    spec fn well_formed(self) -> bool {
        is_identifier_text(self.text@)
    }

    /// Builds the identifier that holds `s`, or `None` when `s` is too long
    /// or holds a character outside the alphabet.
    pub fn new(s: &str) -> (r: Option<Identifier>)
        ensures
            r is Some <==> is_identifier_text(s@),
            r matches Some(id) ==> id@ == s@,
    {
        let n = s.unicode_len();
        if n > MAX_IDENTIFIER_LEN {
            return None;
        }
        let mut i: usize = 0;
        while i < n
            invariant
                n == s@.len(),
                i <= n,
                forall|j: int| 0 <= j < i ==> is_identifier_char(#[trigger] s@[j]),
            decreases n - i,
        {
            if !identifier_char(s.get_char(i)) {
                return None;
            }
            i = i + 1;
        }
        Some(Identifier { text: s.to_owned() })
    }

    /// The text of the identifier.
    pub fn as_str(&self) -> (r: &str)
        ensures
            r@ == self@,
            is_identifier_text(r@),
    {
        proof {
            use_type_invariant(self);
        }
        self.text.as_str()
    }
}

} // verus!
