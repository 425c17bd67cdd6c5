//! Database file names: which ones are accepted before a store is opened.

use vstd::prelude::*;

verus! {

/// Why a database name was turned down.
#[derive(Clone, Copy, Debug, PartialEq, Eq, Structural)]
pub enum NameError {
    /// The name holds no character at all.
    Empty,
    /// The name holds a character other than an ASCII letter, an ASCII digit,
    /// `_` or `.`.
    InvalidCharacter,
}

/// The characters a database name is made of: `A-Z`, `a-z`, `0-9`, `_`, `.`.
pub open spec fn is_name_char(c: char) -> bool {
    ||| 'a' <= c <= 'z'
    ||| 'A' <= c <= 'Z'
    ||| '0' <= c <= '9'
    ||| c == '_'
    ||| c == '.'
}

/// A database name is acceptable when it is not empty and every character of
/// it is a name character.
pub open spec fn is_valid_db_name(name: Seq<char>) -> bool {
    &&& name.len() > 0
    &&& forall|i: int| 0 <= i < name.len() ==> is_name_char(#[trigger] name[i])
}

/// What `sanitize_db_name` answers for a name, as a function of its characters.
pub open spec fn name_verdict(name: Seq<char>) -> Result<Seq<char>, NameError> {
    if name.len() == 0 {
        Err(NameError::Empty)
    } else if is_valid_db_name(name) {
        Ok(name)
    } else {
        Err(NameError::InvalidCharacter)
    }
}

/// Tells whether `c` may stand in a database name.
pub fn name_char_allowed(c: char) -> (allowed: bool)
    ensures
        allowed == is_name_char(c),
{
    ('a' <= c && c <= 'z') || ('A' <= c && c <= 'Z') || ('0' <= c && c <= '9') || c == '_' || c
        == '.'
}

/// Checks a database name and hands it back unchanged when it is acceptable.
///
/// An empty name is `Empty`; a name with any character outside
/// `[A-Za-z0-9_.]` is `InvalidCharacter`.
pub fn sanitize_db_name(name: &str) -> (checked: Result<&str, NameError>)
    ensures
        checked is Ok <==> is_valid_db_name(name@),
        checked is Ok ==> checked->Ok_0@ == name@,
        checked == Err::<&str, NameError>(NameError::Empty) <==> name@.len() == 0,
        checked == Err::<&str, NameError>(NameError::InvalidCharacter) <==> name@.len() > 0
            && !is_valid_db_name(name@),
{
    let n: usize = name.unicode_len();
    if n == 0 {
        return Err(NameError::Empty);
    }
    let mut i: usize = 0;
    while i < n
        invariant
            n == name@.len(),
            i <= n,
            forall|j: int| 0 <= j < i ==> is_name_char(#[trigger] name@[j]),
        decreases n - i,
    {
        if !name_char_allowed(name.get_char(i)) {
            return Err(NameError::InvalidCharacter);
        }
        i += 1;
    }
    Ok(name)
}

/// A name that holds a path separator or a space anywhere is never accepted,
/// so no store is opened under such a name.
pub proof fn lemma_separator_or_space_rejected(name: Seq<char>, at: int)
    requires
        0 <= at < name.len(),
        name[at] == '/' || name[at] == '\\' || name[at] == ' ',
    ensures
        !is_valid_db_name(name),
        name_verdict(name) == Err::<Seq<char>, NameError>(NameError::InvalidCharacter),
{
    assert(!is_name_char(name[at]));
}

impl NameError {
    /// The sentence shown to the user for this error.
    pub fn message(&self) -> (text: String)
        ensures
            text@ == match *self {
                NameError::Empty => "Database name cannot be empty, even for a wacky database!"@,
                NameError::InvalidCharacter =>
                    "Database name can only contain alphanumeric characters, underscores and dots, ごめん!"@,
            },
    {
        match self {
            NameError::Empty => String::from_str(
                "Database name cannot be empty, even for a wacky database!",
            ),
            NameError::InvalidCharacter => String::from_str(
                "Database name can only contain alphanumeric characters, underscores and dots, ごめん!",
            ),
        }
    }
}

} // verus!
