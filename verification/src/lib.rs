//! Greeting texts: a stateless value that renders greeting, farewell and
//! time-of-day-personalized greeting strings from a name.

use vstd::prelude::*;

verus! {

/// The lowercase form of one character: an ASCII uppercase letter maps to its
/// lowercase counterpart; every other character is unchanged.
pub open spec fn lower_char(c: char) -> char {
    if 'A' <= c && c <= 'Z' {
        ((c as u8) + 32) as char
    } else {
        c
    }
}

/// A text lowercased character by character.
pub open spec fn lower(s: Seq<char>) -> Seq<char> {
    s.map_values(|c: char| lower_char(c))
}

/// Case-insensitive equality of two texts: they agree once lowercased.
pub open spec fn eq_ignore_case(s: Seq<char>, t: Seq<char>) -> bool {
    lower(s) == lower(t)
}

/// Lowercases one character.
fn to_lower_char(c: char) -> (r: char)
    ensures
        r == lower_char(c),
{
    if 'A' <= c && c <= 'Z' {
        ((c as u8) + 32) as char
    } else {
        c
    }
}

/// Decides case-insensitive equality of two texts by comparing them character
/// by character after lowercasing each character.
pub fn str_eq_ignore_case(s: &str, t: &str) -> (r: bool)
    ensures
        r == eq_ignore_case(s@, t@),
{
    let n = s.unicode_len();
    let m = t.unicode_len();
    if n != m {
        proof {
            assert(lower(s@).len() == s@.len());
            assert(lower(t@).len() == t@.len());
        }
        return false;
    }
    let mut i: usize = 0;
    while i < n
        invariant
            n == s@.len(),
            n == t@.len(),
            i <= n,
            forall|j: int| 0 <= j < i ==> lower_char(s@[j]) == lower_char(t@[j]),
        decreases n - i,
    {
        let a = to_lower_char(s.get_char(i));
        let b = to_lower_char(t.get_char(i));
        if a != b {
            proof {
                assert(lower(s@)[i as int] != lower(t@)[i as int]);
            }
            return false;
        }
        i += 1;
    }
    proof {
        assert(lower(s@) =~= lower(t@));
    }
    true
}

/// The text that a personalized greeting yields: the time-of-day label is
/// normalized to lowercase and matched exactly against the three recognized
/// period names; every other label, the empty text included, falls back to
/// "Good day".
pub open spec fn personalized_greeting(name: Seq<char>, time_of_day: Seq<char>) -> Seq<char> {
    if lower(time_of_day) == "morning"@ {
        "Good morning, "@ + name
    } else if lower(time_of_day) == "afternoon"@ {
        "Good afternoon, "@ + name
    } else if lower(time_of_day) == "evening"@ {
        "Good evening, "@ + name
    } else {
        "Good day, "@ + name
    }
}

/// The three recognized period names are already lowercase, so lowercasing
/// fixes them.
proof fn lemma_periods_lowercase()
    ensures
        lower("morning"@) == "morning"@,
        lower("afternoon"@) == "afternoon"@,
        lower("evening"@) == "evening"@,
{
    reveal_strlit("morning");
    reveal_strlit("afternoon");
    reveal_strlit("evening");
    assert(lower("morning"@) =~= "morning"@);
    assert(lower("afternoon"@) =~= "afternoon"@);
    assert(lower("evening"@) =~= "evening"@);
}

/// A stateless producer of greeting texts. It carries no fields: any two
/// values of it behave identically.
pub struct Greeting;

impl Greeting {
    /// Returns "Hello, {name}!" with the name substituted verbatim.
    pub fn get_greeting(&self, name: &str) -> (r: String)
        ensures
            r@ == "Hello, "@ + name@ + "!"@,
    {
        let mut r = String::from_str("Hello, ");
        r.append(name);
        r.append("!");
        r
    }

    /// Returns "Goodbye, {name}. Have a great day!" with the name substituted
    /// verbatim.
    pub fn get_farewell(&self, name: &str) -> (r: String)
        ensures
            r@ == "Goodbye, "@ + name@ + ". Have a great day!"@,
    {
        let mut r = String::from_str("Goodbye, ");
        r.append(name);
        r.append(". Have a great day!");
        r
    }

    /// Returns the personalized greeting for a name and a time-of-day label:
    /// "Good {period}, {name}" when the lowercased label is "morning",
    /// "afternoon" or "evening", and "Good day, {name}" for every other label.
    pub fn get_personalized_greeting(&self, name: &str, time_of_day: &str) -> (r: String)
        ensures
            r@ == personalized_greeting(name@, time_of_day@),
    {
        proof {
            lemma_periods_lowercase();
        }
        let template = if str_eq_ignore_case(time_of_day, "morning") {
            "Good morning, "
        } else if str_eq_ignore_case(time_of_day, "afternoon") {
            "Good afternoon, "
        } else if str_eq_ignore_case(time_of_day, "evening") {
            "Good evening, "
        } else {
            "Good day, "
        };
        let mut r = String::from_str(template);
        r.append(name);
        r
    }
}

/// For every name and every time-of-day text, casing does not matter: a label
/// whose lowercase form is one of the three recognized period names selects
/// that period's template, whatever casing the label uses.
pub proof fn lemma_personalized_greeting_casing(name: Seq<char>, time_of_day: Seq<char>)
    ensures
        eq_ignore_case(time_of_day, "morning"@) ==> personalized_greeting(name, time_of_day)
            == "Good morning, "@ + name,
        eq_ignore_case(time_of_day, "afternoon"@) ==> personalized_greeting(name, time_of_day)
            == "Good afternoon, "@ + name,
        eq_ignore_case(time_of_day, "evening"@) ==> personalized_greeting(name, time_of_day)
            == "Good evening, "@ + name,
{
    lemma_periods_lowercase();
    reveal_strlit("morning");
    reveal_strlit("afternoon");
    reveal_strlit("evening");
    assert("morning"@ != "afternoon"@);
    assert("morning"@[0] != "evening"@[0]);
    assert("morning"@ != "evening"@);
    assert("afternoon"@ != "evening"@);
}

/// For every name and every time-of-day text that is not case-insensitively
/// equal to a recognized period name — the empty text and texts with
/// surrounding whitespace included, since nothing is trimmed — the fallback
/// template is used.
pub proof fn lemma_personalized_greeting_fallback(name: Seq<char>, time_of_day: Seq<char>)
    requires
        !eq_ignore_case(time_of_day, "morning"@),
        !eq_ignore_case(time_of_day, "afternoon"@),
        !eq_ignore_case(time_of_day, "evening"@),
    ensures
        personalized_greeting(name, time_of_day) == "Good day, "@ + name,
{
    lemma_periods_lowercase();
}

} // verus!
