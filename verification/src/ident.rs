//! Job identifiers: the token that names every artifact of one conversion.

use vstd::prelude::*;

verus! {

/// Number of characters in the text of a job identifier.
pub const ID_LEN: usize = 36;

/// A decimal digit or one of the letters `a` to `f`.
pub open spec fn is_lower_hex(c: char) -> bool {
    ('0' <= c && c <= '9') || ('a' <= c && c <= 'f')
}

/// The four places at which an identifier's text holds a hyphen.
pub open spec fn is_hyphen_position(i: int) -> bool {
    i == 8 || i == 13 || i == 18 || i == 23
}

/// What the character at place `i` of an identifier's text must be.
pub open spec fn id_char_ok(i: int, c: char) -> bool {
    if is_hyphen_position(i) {
        c == '-'
    } else {
        is_lower_hex(c)
    }
}

/// The text of an identifier: 36 characters, lower-case hexadecimal digits
/// in groups of 8, 4, 4, 4 and 12, with a hyphen between the groups.
pub open spec fn is_id_text(s: Seq<char>) -> bool {
    &&& s.len() == ID_LEN
    &&& forall|i: int| 0 <= i < s.len() ==> id_char_ok(i, #[trigger] s[i])
}

/// The text of an identifier that was drawn at random: the first digit of
/// the third group is `4`, the first digit of the fourth is one of `8`, `9`,
/// `a`, `b`.
pub open spec fn is_random_id_text(s: Seq<char>) -> bool {
    &&& is_id_text(s)
    &&& s[14] == '4'
    &&& (s[19] == '8' || s[19] == '9' || s[19] == 'a' || s[19] == 'b')
}

/// Whether `c` may stand at place `i` of an identifier's text.
fn check_id_char(i: usize, c: char) -> (ok: bool)
    ensures
        ok == id_char_ok(i as int, c),
{
    if i == 8 || i == 13 || i == 18 || i == 23 {
        c == '-'
    } else {
        ('0' <= c && c <= '9') || ('a' <= c && c <= 'f')
    }
}

/// Whether `text` is the text of an identifier.
pub fn is_id(text: &str) -> (ok: bool)
    ensures
        ok == is_id_text(text@),
{
    if text.unicode_len() != ID_LEN {
        return false;
    }
    let mut i: usize = 0;
    while i < ID_LEN
        invariant
            i <= ID_LEN,
            text@.len() == ID_LEN,
            forall|j: int| 0 <= j < i ==> id_char_ok(j, #[trigger] text@[j]),
        decreases ID_LEN - i,
    {
        if !check_id_char(i, text.get_char(i)) {
            return false;
        }
        i = i + 1;
    }
    true
}

/// The identifier of one conversion job. Its text is always that of an
/// identifier, so it holds no path separator and no dot, and every name
/// derived from it has a known length.
#[derive(Debug, PartialEq, Eq, Hash)]
pub struct JobId {
    text: String,
}

impl View for JobId {
    type V = Seq<char>;

    closed spec fn view(&self) -> Seq<char> {
        self.text@
    }
}

/// `Uuid::new_v4` of the uuid crate, written out by the crate's `Display`
/// impl. The text is the hyphenated lower-case form of 36 characters. The
/// version digit is `4` and the variant digit is one of `8`, `9`, `a`, `b`,
/// because `new_v4` fixes those bits. Which identifier comes back is left
/// open: it is drawn from the operating system's random source, and the call
/// needs no coordination between callers.
#[verifier::external_body]
fn random_uuid_text() -> (text: String)
    ensures
        is_random_id_text(text@),
{
    format!("{}", uuid::Uuid::new_v4())
}

impl JobId {
    /// Holds of every identifier: its text is that of one.
    #[verifier::type_invariant]
    pub open spec fn text_is_id(self) -> bool {
        is_id_text(self@)
    }

    /// A fresh identifier, drawn at random.
    pub fn generate() -> (id: JobId)
        ensures
            is_random_id_text(id@),
    {
        JobId { text: random_uuid_text() }
    }

    /// The identifier with the given text, if it is the text of one.
    pub fn parse(text: &str) -> (id: Option<JobId>)
        ensures
            id is Some <==> is_id_text(text@),
            id matches Some(j) ==> j@ == text@,
    {
        if is_id(text) {
            Some(JobId { text: String::from_str(text) })
        } else {
            None
        }
    }

    /// The identifier's text.
    pub fn as_str(&self) -> (text: &str)
        ensures
            text@ == self@,
            is_id_text(text@),
    {
        proof {
            use_type_invariant(self);
        }
        self.text.as_str()
    }

    /// A second value of the same identifier.
    pub fn duplicate(&self) -> (id: JobId)
        ensures
            id@ == self@,
    {
        proof {
            use_type_invariant(self);
        }
        JobId { text: self.text.clone() }
    }
}

} // verus!
