//! Traits for detailed descriptions and for proper-cased labels.
use crate::text::{alpha_of, is_alphabetic, lower_of, lowercase, push_char, upper_of, uppercase};
use vstd::prelude::*;
use vstd::string::StringExecFns;

verus! {

/// Akin to `to_string()`, but for more detailed information, leaving the
/// plain text to simpler things.
pub trait DetailedDisplay {
    fn detailed_display(&self) -> String;
}

/// The text made of the first `i` characters of `s`, and whether the next
/// letter is to be capitalized: a letter that follows a non-letter (or
/// starts the text) is uppercased, every other character kept.
pub open spec fn proper_prefix(s: Seq<char>, i: int) -> (Seq<char>, bool)
    decreases i,
{
    if i <= 0 {
        (Seq::empty(), true)
    } else {
        let (out, capitalize) = proper_prefix(s, i - 1);
        let c = s[i - 1];
        if capitalize && alpha_of(c) {
            (out + upper_of(c), false)
        } else {
            (out.push(c), !alpha_of(c))
        }
    }
}

/// `s` in proper case, `s` being already lowercase.
pub open spec fn proper_of_lower(s: Seq<char>) -> Seq<char> {
    proper_prefix(s, s.len() as int).0
}

/// Proper case of a lowercase text: see [`proper_of_lower`].
pub fn proper_case_lower(s: &str) -> (r: String)
    ensures
        r@ == proper_of_lower(s@),
{
    let n = s.unicode_len();
    let mut out = String::new();
    let mut capitalize = true;
    let mut i: usize = 0;
    while i < n
        invariant
            n == s@.len(),
            0 <= i <= n,
            (out@, capitalize) == proper_prefix(s@, i as int),
        decreases n - i,
    {
        let c = s.get_char(i);
        if capitalize && is_alphabetic(c) {
            let up = uppercase(c);
            out.append(up.as_str());
            capitalize = false;
        } else {
            push_char(&mut out, c);
            capitalize = !is_alphabetic(c);
        }
        i = i + 1;
    }
    out
}

/// Converting strings into (semi-)"Proper Case": a "smart" title case for
/// labels, names and titles. Any letter that follows a space, a hyphen or
/// another non-letter is capitalized, every other letter lowercased. Words
/// such as "a" or "with" get no special treatment.
pub trait ProperCaseExt {
    fn proper_case(&self) -> String;
}

impl ProperCaseExt for str {
    fn proper_case(&self) -> (r: String)
        ensures
            r@ == proper_of_lower(lower_of(self@)),
    {
        let lower = lowercase(self);
        proper_case_lower(lower.as_str())
    }
}

/// Extends [`ProperCaseExt`] with special word cases.
pub trait NewsPaperCaseExt: ProperCaseExt {
    fn newspaper_case(&self) -> String;
}

} // verus!
