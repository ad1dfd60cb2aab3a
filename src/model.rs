use crate::errors::DomainError;
use vstd::prelude::*;

verus! {

/// Whether `c` has the Unicode White_Space property (PropList.txt).
pub open spec fn is_white_space(c: char) -> bool {
    let u = c as u32;
    ||| 0x9 <= u <= 0xD
    ||| u == 0x20
    ||| u == 0x85
    ||| u == 0xA0
    ||| u == 0x1680
    ||| 0x2000 <= u <= 0x200A
    ||| u == 0x2028
    ||| u == 0x2029
    ||| u == 0x202F
    ||| u == 0x205F
    ||| u == 0x3000
}

/// `r` is `s` with its leading and trailing white space removed: a slice of
/// `s` whose outside characters are all white space and whose first and
/// last characters are not.
pub open spec fn is_trim_of(r: Seq<char>, s: Seq<char>) -> bool {
    exists|lo: int, hi: int|
        #![trigger s.subrange(lo, hi)]
        {
            &&& 0 <= lo <= hi <= s.len()
            &&& r == s.subrange(lo, hi)
            &&& forall|i: int| 0 <= i < lo ==> is_white_space(#[trigger] s[i])
            &&& forall|i: int| hi <= i < s.len() ==> is_white_space(#[trigger] s[i])
            &&& lo < hi ==> !is_white_space(s[lo]) && !is_white_space(s[hi - 1])
        }
}

/// A name is blank when it is empty or holds only white space.
pub open spec fn is_blank(s: Seq<char>) -> bool {
    forall|i: int| 0 <= i < s.len() ==> is_white_space(#[trigger] s[i])
}

/// The message of the failure for a blank name.
pub open spec fn empty_name_message() -> Seq<char> {
    "name is empty"@
}

/// Relies on str::trim: the slice of `s` without leading and trailing
/// characters that have the Unicode White_Space property.
#[verifier::external_body]
fn trim(s: &str) -> (r: &str)
    ensures
        is_trim_of(r@, s@),
{
    s.trim()
}

/// A trimmed form is empty exactly when the whole string is white space.
proof fn lemma_trim_empty_iff_blank(r: Seq<char>, s: Seq<char>)
    requires
        is_trim_of(r, s),
    ensures
        r.len() == 0 <==> is_blank(s),
{
    let (lo, hi) = choose|lo: int, hi: int|
        #![trigger s.subrange(lo, hi)]
        {
            &&& 0 <= lo <= hi <= s.len()
            &&& r == s.subrange(lo, hi)
            &&& forall|i: int| 0 <= i < lo ==> is_white_space(#[trigger] s[i])
            &&& forall|i: int| hi <= i < s.len() ==> is_white_space(#[trigger] s[i])
            &&& lo < hi ==> !is_white_space(s[lo]) && !is_white_space(s[hi - 1])
        };
    if r.len() == 0 {
        assert forall|i: int| 0 <= i < s.len() implies is_white_space(#[trigger] s[i]) by {
            if i >= lo {
                assert(hi <= i);
            }
        }
    }
}

/// One identity record: a caller-chosen id and a display name.
#[derive(Debug, Clone)]
pub struct User {
    pub id: String,
    pub name: String,
}

impl User {
    /// Builds a user when `name`, trimmed, is not empty; the name is kept as
    /// given, surrounding white space included.
    pub fn new(id: String, name: String) -> (r: Result<User, DomainError>)
        ensures
            r is Ok <==> !is_blank(name@),
            r matches Ok(u) ==> u.id == id && u.name == name,
            r matches Err(e) ==> e matches DomainError::Validation(m) && m@
                == empty_name_message(),
    {
        let t = trim(name.as_str());
        proof {
            lemma_trim_empty_iff_blank(t@, name@);
        }
        if t.is_empty() {
            return Err(DomainError::Validation("name is empty".to_string()));
        }
        Ok(User { id, name })
    }

    /// A copy of this user, field for field.
    pub fn duplicate(&self) -> (r: User)
        ensures
            r == *self,
    {
        User { id: self.id.clone(), name: self.name.clone() }
    }
}

} // verus!
