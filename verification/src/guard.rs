//! Which texts are handed to the parser. The parser stops the program on a
//! few texts instead of answering with an error, and it recurses as deep as
//! a text nests; such texts are told apart here, by their length and by the
//! words they hold, before the parser sees them.

use vstd::prelude::*;

verus! {

/// The longest text, in characters, that is handed to the parser. No tree
/// that the parser makes of a text is deeper than the text is long, so this
/// bounds how deep the trees go that are dropped in the end.
pub const TEXT_LIMIT: usize = 4096;

/// The most opening brackets, of whatever kind, in a text that is handed to
/// the parser. The parser goes one level deeper for a bracket at a time in
/// table factors, derived tables and nested types, so this bounds how deep
/// it goes there.
pub const BRACKET_LIMIT: usize = 8;

/// How deep the parser is let go where it counts its depth: in statements,
/// queries and expressions that stand one inside the other. Beyond that it
/// answers with an error.
pub const RECURSION_LIMIT: usize = 12;

/// Why a text is kept from the parser.
#[derive(Clone, Copy, Debug, PartialEq, Eq, Structural)]
pub enum Refusal {
    /// The text is longer than `TEXT_LIMIT`.
    TooLong,
    /// The text holds more than `BRACKET_LIMIT` opening brackets.
    TooNested,
    /// The text holds the words of a statement that the parser may not
    /// survive.
    UnsafeWords,
}

/// The letters, digits and the underscore of ASCII: a word goes on for as
/// long as these follow.
pub open spec fn is_word_char(c: char) -> bool {
    ||| 'a' <= c <= 'z'
    ||| 'A' <= c <= 'Z'
    ||| '0' <= c <= '9'
    ||| c == '_'
}

/// Whether a word stands in `text` at `at`, in either case: each character
/// there is the small letter or the capital letter of the word.
pub open spec fn word_at(text: Seq<char>, small: Seq<char>, capital: Seq<char>, at: int) -> bool {
    &&& 0 <= at
    &&& at + small.len() <= text.len()
    &&& forall|k: int|
        0 <= k < small.len() ==> text[at + k] == small[k] || text[at + k] == #[trigger] capital[k]
}

/// Whether a word stands in `text` at `at` and ends there: the text ends
/// behind it, or what follows is no letter, digit or underscore of ASCII.
pub open spec fn word_ends_at(text: Seq<char>, small: Seq<char>, capital: Seq<char>, at: int)
    -> bool {
    &&& word_at(text, small, capital, at)
    &&& (at + small.len() == text.len() || !is_word_char(text[at + small.len()]))
}

/// Whether a word stands anywhere in `text`, in either case, be it as a word
/// of its own or as a part of a longer one.
pub open spec fn holds_word(text: Seq<char>, small: Seq<char>, capital: Seq<char>) -> bool {
    exists|at: int| word_at(text, small, capital, at)
}

/// Whether a word stands somewhere in `text`, in either case, and ends
/// there.
pub open spec fn holds_word_end(text: Seq<char>, small: Seq<char>, capital: Seq<char>) -> bool {
    exists|at: int| word_ends_at(text, small, capital, at)
}

/// Whether `text` holds one of the two characters outside ASCII whose
/// upper-case form is a part of `FLUSH`: the long s and the ligature of f
/// and l.
pub open spec fn holds_flush_lookalike(text: Seq<char>) -> bool {
    exists|at: int| 0 <= at < text.len() && is_flush_lookalike(#[trigger] text[at])
}

/// The long s, whose upper-case form is `S`, and the ligature of f and l,
/// whose upper-case form is `FL`.
pub open spec fn is_flush_lookalike(c: char) -> bool {
    c == '\u{17f}' || c == '\u{fb02}'
}

/// A text that may be a GRANT or a REVOKE with a `GRANTED BY` in it: it
/// holds `grant` or `revoke` at the end of a word, and `granted`, and `by`.
pub open spec fn may_grant(text: Seq<char>) -> bool {
    &&& holds_word_end(text, "grant"@, "GRANT"@) || holds_word_end(text, "revoke"@, "REVOKE"@)
    &&& holds_word(text, "granted"@, "GRANTED"@)
    &&& holds_word(text, "by"@, "BY"@)
}

/// A text that may be a FLUSH of relay logs for a channel: it holds
/// `flush`, spelt out or with a lookalike, and `relay`, and `channel`.
pub open spec fn may_flush(text: Seq<char>) -> bool {
    &&& holds_word(text, "flush"@, "FLUSH"@) || holds_flush_lookalike(text)
    &&& holds_word(text, "relay"@, "RELAY"@)
    &&& holds_word(text, "channel"@, "CHANNEL"@)
}

/// The brackets that open: round, angle, square and curly.
pub open spec fn is_opener(c: char) -> bool {
    c == '(' || c == '<' || c == '[' || c == '{'
}

/// How many of the first `n` characters of a text are opening brackets.
/// Each counts, be it a bracket of the statement, a comparison, or a
/// character of a literal.
pub open spec fn openers(text: Seq<char>, n: nat) -> nat
    decreases n,
{
    if n == 0 {
        0
    } else {
        openers(text, (n - 1) as nat) + if is_opener(text[n - 1]) {
            1nat
        } else {
            0nat
        }
    }
}

/// Why a text is kept from the parser, if it is: for its length first, then
/// for its brackets, then for its words.
pub open spec fn refusal_of(text: Seq<char>) -> Option<Refusal> {
    if text.len() > TEXT_LIMIT {
        Some(Refusal::TooLong)
    } else if openers(text, text.len()) > BRACKET_LIMIT {
        Some(Refusal::TooNested)
    } else if may_grant(text) || may_flush(text) {
        Some(Refusal::UnsafeWords)
    } else {
        None
    }
}

/// The texts that are kept from the parser.
pub open spec fn upsets_parser(text: Seq<char>) -> bool {
    refusal_of(text) is Some
}

/// The sentence that reports a refusal.
pub open spec fn refusal_text(refusal: Refusal) -> Seq<char> {
    match refusal {
        Refusal::TooLong => "WackyDB does not read a line that long."@,
        Refusal::TooNested => "WackyDB does not read a line with that many brackets."@,
        Refusal::UnsafeWords =>
            "WackyDB does not read a GRANT or REVOKE with GRANTED BY, nor a FLUSH with RELAY and CHANNEL."@,
    }
}

impl Refusal {
    /// The sentence that reports this refusal.
    pub fn message(&self) -> (text: String)
        ensures
            text@ == refusal_text(*self),
    {
        match self {
            Refusal::TooLong => String::from_str("WackyDB does not read a line that long."),
            Refusal::TooNested => String::from_str(
                "WackyDB does not read a line with that many brackets.",
            ),
            Refusal::UnsafeWords => String::from_str(
                "WackyDB does not read a GRANT or REVOKE with GRANTED BY, nor a FLUSH with RELAY and CHANNEL.",
            ),
        }
    }
}

/// The characters of a text, one by one.
pub fn characters(text: &str) -> (chars: Vec<char>)
    ensures
        chars@ == text@,
{
    let n: usize = text.unicode_len();
    let plain: bool = text.is_ascii();
    let mut chars: Vec<char> = Vec::new();
    let mut i: usize = 0;
    while i < n
        invariant
            n == text@.len(),
            i <= n,
            plain ==> text.is_ascii(),
            chars@ == text@.take(i as int),
        decreases n - i,
    {
        if plain {
            let byte: u8 = text.get_ascii(i);
            chars.push(byte as char);
        } else {
            chars.push(text.get_char(i));
        }
        i += 1;
    }
    chars
}

/// Tells whether a character is a letter, a digit or the underscore of
/// ASCII.
pub fn word_char(c: char) -> (yes: bool)
    ensures
        yes == is_word_char(c),
{
    ('a' <= c && c <= 'z') || ('A' <= c && c <= 'Z') || ('0' <= c && c <= '9') || c == '_'
}

/// Tells whether a word stands in `text` at `at`, in either case.
fn stands_at(text: &Vec<char>, small: &Vec<char>, capital: &Vec<char>, at: usize) -> (found:
    bool)
    requires
        small.len() == capital.len(),
        at + small.len() <= text.len(),
    ensures
        found == word_at(text@, small@, capital@, at as int),
{
    let mut k: usize = 0;
    while k < small.len()
        invariant
            k <= small.len(),
            small.len() == capital.len(),
            at + small.len() <= text.len(),
            forall|j: int|
                0 <= j < k ==> text[at + j] == small[j] || text[at + j] == #[trigger] capital[j],
        decreases small.len() - k,
    {
        let c = text[at + k];
        if c != small[k] && c != capital[k] {
            return false;
        }
        k += 1;
    }
    true
}

/// Tells whether a word stands anywhere in `text`, in either case; with
/// `ending`, whether it stands somewhere and ends there.
fn holds(text: &Vec<char>, small: &Vec<char>, capital: &Vec<char>, ending: bool) -> (found: bool)
    requires
        small.len() == capital.len(),
    ensures
        found == if ending {
            holds_word_end(text@, small@, capital@)
        } else {
            holds_word(text@, small@, capital@)
        },
{
    if small.len() > text.len() {
        return false;
    }
    let last: usize = text.len() - small.len();
    let mut at: usize = 0;
    while at <= last
        invariant
            small.len() == capital.len(),
            last == text.len() - small.len(),
            at <= last + 1,
            forall|a: int|
                0 <= a < at ==> if ending {
                    !word_ends_at(text@, small@, capital@, a)
                } else {
                    !word_at(text@, small@, capital@, a)
                },
        decreases last + 1 - at,
    {
        if stands_at(text, small, capital, at) {
            if !ending || at == last || !word_char(text[at + small.len()]) {
                assert(ending ==> word_ends_at(text@, small@, capital@, at as int));
                return true;
            }
        }
        at += 1;
    }
    false
}

/// Tells whether a text holds a lookalike of a letter of `FLUSH`.
fn holds_lookalike(text: &Vec<char>) -> (found: bool)
    ensures
        found == holds_flush_lookalike(text@),
{
    let mut at: usize = 0;
    while at < text.len()
        invariant
            at <= text.len(),
            forall|a: int| 0 <= a < at ==> !is_flush_lookalike(#[trigger] text[a]),
        decreases text.len() - at,
    {
        let c = text[at];
        if c == '\u{17f}' || c == '\u{fb02}' {
            return true;
        }
        at += 1;
    }
    false
}

/// Counts the opening brackets of a text.
pub fn count_openers(text: &Vec<char>) -> (count: usize)
    ensures
        count == openers(text@, text.len() as nat),
{
    let mut count: usize = 0;
    let mut i: usize = 0;
    while i < text.len()
        invariant
            i <= text.len(),
            count <= i,
            count == openers(text@, i as nat),
        decreases text.len() - i,
    {
        let c = text[i];
        if c == '(' || c == '<' || c == '[' || c == '{' {
            count += 1;
        }
        i += 1;
    }
    count
}

/// Tells why a text is kept from the parser, if it is.
pub fn check_text(text: &str) -> (refusal: Option<Refusal>)
    ensures
        refusal == refusal_of(text@),
{
    proof {
        reveal_strlit("grant");
        reveal_strlit("GRANT");
        reveal_strlit("revoke");
        reveal_strlit("REVOKE");
        reveal_strlit("granted");
        reveal_strlit("GRANTED");
        reveal_strlit("by");
        reveal_strlit("BY");
        reveal_strlit("flush");
        reveal_strlit("FLUSH");
        reveal_strlit("relay");
        reveal_strlit("RELAY");
        reveal_strlit("channel");
        reveal_strlit("CHANNEL");
    }
    if text.unicode_len() > TEXT_LIMIT {
        return Some(Refusal::TooLong);
    }
    let chars = characters(text);
    if count_openers(&chars) > BRACKET_LIMIT {
        return Some(Refusal::TooNested);
    }
    let grants = (holds(&chars, &characters("grant"), &characters("GRANT"), true) || holds(
        &chars,
        &characters("revoke"),
        &characters("REVOKE"),
        true,
    )) && holds(&chars, &characters("granted"), &characters("GRANTED"), false) && holds(
        &chars,
        &characters("by"),
        &characters("BY"),
        false,
    );
    if grants {
        return Some(Refusal::UnsafeWords);
    }
    let flushes = (holds(&chars, &characters("flush"), &characters("FLUSH"), false)
        || holds_lookalike(&chars)) && holds(
        &chars,
        &characters("relay"),
        &characters("RELAY"),
        false,
    ) && holds(&chars, &characters("channel"), &characters("CHANNEL"), false);
    if flushes {
        return Some(Refusal::UnsafeWords);
    }
    None
}

} // verus!
