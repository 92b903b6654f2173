//! Plain-value forms of two persisted fields: an ordering kept as a word,
//! and a field that holds either one string or a list of strings.
use std::cmp::Ordering;
use vstd::prelude::*;

verus! {

/// Why a persisted field could not be read.
#[derive(Debug, Clone, Copy, PartialEq, Eq, Structural)]
pub enum DecodeError {
    /// An ordering word whose first character (if any) is none of `l`, `e`
    /// and `g`, in either case.
    UnknownOrdering { first: Option<char> },
}

/// The word that an ordering is written as.
pub open spec fn ordering_word(o: Ordering) -> Seq<char> {
    match o {
        Ordering::Less => "Less"@,
        Ordering::Equal => "Equal"@,
        Ordering::Greater => "Greater"@,
    }
}

/// The ordering that a word is read as: only its first character counts,
/// in either case.
pub open spec fn ordering_of_word(s: Seq<char>) -> Option<Ordering> {
    if s.len() == 0 {
        None
    } else if s[0] == 'l' || s[0] == 'L' {
        Some(Ordering::Less)
    } else if s[0] == 'e' || s[0] == 'E' {
        Some(Ordering::Equal)
    } else if s[0] == 'g' || s[0] == 'G' {
        Some(Ordering::Greater)
    } else {
        None
    }
}

/// Writes an ordering as `"Less"`, `"Equal"` or `"Greater"`.
pub fn encode_ordering(o: Ordering) -> (r: &'static str)
    ensures
        r@ == ordering_word(o),
{
    match o {
        Ordering::Less => "Less",
        Ordering::Equal => "Equal",
        Ordering::Greater => "Greater",
    }
}

/// Reads an ordering from any word whose first character is `l`, `e` or
/// `g`, in either case; any other word is an error that names its first
/// character.
pub fn decode_ordering(s: &str) -> (r: Result<Ordering, DecodeError>)
    ensures
        ordering_of_word(s@) is Some ==> r == Ok::<Ordering, DecodeError>(
            ordering_of_word(s@)->0,
        ),
        ordering_of_word(s@) is None ==> r == Err::<Ordering, DecodeError>(
            DecodeError::UnknownOrdering {
                first: if s@.len() == 0 {
                    None
                } else {
                    Some(s@[0])
                },
            },
        ),
{
    if s.unicode_len() == 0 {
        return Err(DecodeError::UnknownOrdering { first: None });
    }
    let c = s.get_char(0);
    if c == 'l' || c == 'L' {
        Ok(Ordering::Less)
    } else if c == 'e' || c == 'E' {
        Ok(Ordering::Equal)
    } else if c == 'g' || c == 'G' {
        Ok(Ordering::Greater)
    } else {
        Err(DecodeError::UnknownOrdering { first: Some(c) })
    }
}

/// Writing an ordering and reading it back gives the same ordering.
pub proof fn lemma_ordering_round_trip(o: Ordering)
    ensures
        ordering_of_word(ordering_word(o)) == Some(o),
{
    reveal_strlit("Less");
    reveal_strlit("Equal");
    reveal_strlit("Greater");
}

/// A field persisted as one string or as a list of strings.
#[derive(Debug)]
pub enum StringOrList {
    One(String),
    Many(Vec<String>),
}

/// The characters of each string of a list.
pub open spec fn texts(v: Seq<String>) -> Seq<Seq<char>> {
    v.map_values(|s: String| s@)
}

impl StringOrList {
    /// The list that the field stands for: a lone string is a list of one.
    pub open spec fn normalized(self) -> Seq<Seq<char>> {
        match self {
            StringOrList::One(s) => seq![s@],
            StringOrList::Many(v) => texts(v@),
        }
    }

    /// The list that the field stands for: a lone string is a list of one.
    pub fn into_vec(self) -> (r: Vec<String>)
        ensures
            texts(r@) == self.normalized(),
    {
        match self {
            StringOrList::One(s) => {
                let r = vec![s];
                assert(texts(r@) =~= seq![r@[0]@]);
                r
            },
            StringOrList::Many(v) => v,
        }
    }

    /// The persisted form of a list: always the list form.
    pub fn from_vec(v: Vec<String>) -> (r: StringOrList)
        ensures
            r.normalized() == texts(v@),
    {
        StringOrList::Many(v)
    }
}

/// Writing a list and reading it back gives the same list, and a lone
/// string reads back as the list of that one string.
pub proof fn lemma_list_round_trip(v: Vec<String>, s: String)
    ensures
        StringOrList::Many(v).normalized() == texts(v@),
        StringOrList::One(s).normalized() == seq![s@],
{
}

} // verus!
