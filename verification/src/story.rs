//! Story kinds and materialized stories.

use vstd::prelude::*;

verus! {

/// The kind of a remote item.
#[derive(Debug, Clone, Copy, PartialEq, Eq, Structural)]
pub enum HnStoryType {
    Story,
    Ask,
    Comment,
    Job,
    Poll,
}

/// The textual label of a story kind.
pub open spec fn kind_label(t: HnStoryType) -> Seq<char> {
    match t {
        HnStoryType::Story => "story"@,
        HnStoryType::Ask => "ask"@,
        HnStoryType::Comment => "comment"@,
        HnStoryType::Job => "job"@,
        HnStoryType::Poll => "poll"@,
    }
}

/// Whether `s` is the label of some story kind.
pub open spec fn is_kind_label(s: Seq<char>) -> bool {
    ||| s == "story"@
    ||| s == "ask"@
    ||| s == "comment"@
    ||| s == "job"@
    ||| s == "poll"@
}

impl HnStoryType {
    pub fn to_string(&self) -> (r: String)
        ensures
            r@ == kind_label(*self),
    {
        match self {
            HnStoryType::Story => "story".to_owned(),
            HnStoryType::Ask => "ask".to_owned(),
            HnStoryType::Comment => "comment".to_owned(),
            HnStoryType::Job => "job".to_owned(),
            HnStoryType::Poll => "poll".to_owned(),
        }
    }

    pub fn from_string(typev: String) -> (r: Self)
        requires
            is_kind_label(typev@),
        ensures
            kind_label(r) == typev@,
            typev@ == "story"@ ==> r == HnStoryType::Story,
            typev@ == "ask"@ ==> r == HnStoryType::Ask,
            typev@ == "comment"@ ==> r == HnStoryType::Comment,
            typev@ == "job"@ ==> r == HnStoryType::Job,
            typev@ == "poll"@ ==> r == HnStoryType::Poll,
    {
        proof {
            reveal_strlit("story");
            reveal_strlit("ask");
            reveal_strlit("comment");
            reveal_strlit("job");
            reveal_strlit("poll");
            assert("story"@.len() == 5);
            assert("ask"@.len() == 3);
            assert("comment"@.len() == 7);
            assert("job"@.len() == 3);
            assert("poll"@.len() == 4);
            assert("ask"@[0] != "job"@[0]);
        }
        if typev == "story".to_owned() {
            HnStoryType::Story
        } else if typev == "ask".to_owned() {
            HnStoryType::Ask
        } else if typev == "comment".to_owned() {
            HnStoryType::Comment
        } else if typev == "job".to_owned() {
            HnStoryType::Job
        } else {
            HnStoryType::Poll
        }
    }
}

/// A decimal digit.
pub open spec fn is_decimal_digit(c: char) -> bool {
    '0' as int <= c as int && c as int <= '9' as int
}

/// The numeric value of a decimal digit.
pub open spec fn digit_value(c: char) -> nat {
    (c as int - '0' as int) as nat
}

/// Whether every character of `s` is a decimal digit.
pub open spec fn all_digits(s: Seq<char>) -> bool {
    forall|i: int| 0 <= i < s.len() ==> is_decimal_digit(#[trigger] s[i])
}

/// The value of `s` read as a decimal numeral.
pub open spec fn decimal_value(s: Seq<char>) -> nat
    decreases s.len(),
{
    if s.len() == 0 {
        0
    } else {
        decimal_value(s.drop_last()) * 10 + digit_value(s.last())
    }
}

/// The identifier a story constructor derives from a textual id: its decimal
/// value where the text is a numeral that fits in `usize`, and 0 otherwise.
pub open spec fn parsed_id(s: Seq<char>) -> nat {
    if s.len() > 0 && all_digits(s) && decimal_value(s) <= usize::MAX {
        decimal_value(s)
    } else {
        0
    }
}

/// A longer numeral never has a smaller value: dropping a suffix of digits
/// cannot increase the decimal value.
proof fn lemma_decimal_value_prefix(s: Seq<char>, j: int)
    requires
        0 <= j <= s.len(),
    ensures
        decimal_value(s.subrange(0, j)) <= decimal_value(s),
    decreases s.len() - j,
{
    if j == s.len() {
        assert(s.subrange(0, j) =~= s);
    } else {
        lemma_decimal_value_prefix(s, j + 1);
        assert(s.subrange(0, j + 1).drop_last() =~= s.subrange(0, j));
    }
}

/// Parses a string of decimal digits. Returns `None` on an empty string, on
/// any non-digit character, and on a value that does not fit in `usize`.
pub fn parse_usize(s: &str) -> (r: Option<usize>)
    ensures
        match r {
            Some(v) => s@.len() > 0 && all_digits(s@) && v == decimal_value(s@),
            None => s@.len() == 0 || !all_digits(s@) || decimal_value(s@) > usize::MAX,
        },
{
    let len = s.unicode_len();
    if len == 0 {
        return None;
    }
    let mut n: usize = 0;
    let mut i: usize = 0;
    while i < len
        invariant
            i <= len,
            len == s@.len(),
            all_digits(s@.subrange(0, i as int)),
            n == decimal_value(s@.subrange(0, i as int)),
        decreases len - i,
    {
        let c = s.get_char(i);
        let cv = c as u32;
        if cv < 48 || cv > 57 {
            assert(!is_decimal_digit(s@[i as int]));
            return None;
        }
        let d = (cv - 48) as usize;
        proof {
            assert(s@.subrange(0, i + 1).drop_last() =~= s@.subrange(0, i as int));
            assert(s@.subrange(0, i + 1).last() == s@[i as int]);
            lemma_decimal_value_prefix(s@, i + 1);
        }
        let m = match n.checked_mul(10) {
            Some(m) => m,
            None => {
                return None;
            },
        };
        n = match m.checked_add(d) {
            Some(a) => a,
            None => {
                return None;
            },
        };
        i = i + 1;
    }
    proof {
        assert(s@.subrange(0, len as int) =~= s@);
    }
    Some(n)
}

/// A story materialized for display: its position in the identifier list and
/// the text drawn from the remote record, with fallbacks already applied.
#[derive(Debug)]
pub struct HnStory {
    pub id: usize,
    pub author: String,
    pub title: String,
    pub url: Option<String>,
    pub hntype: HnStoryType,
}

impl HnStory {
    pub fn new(
        id: String,
        author: String,
        title: String,
        url: Option<String>,
        typev: String,
    ) -> (r: Self)
        requires
            is_kind_label(typev@),
        ensures
            r.id == parsed_id(id@),
            r.author == author,
            r.title == title,
            r.url == url,
            kind_label(r.hntype) == typev@,
    {
        let idv = match parse_usize(id.as_str()) {
            Some(v) => v,
            None => 0,
        };
        HnStory { id: idv, author, title, url, hntype: HnStoryType::from_string(typev) }
    }

    pub fn author(&self) -> (r: &str)
        ensures
            r@ == self.author@,
    {
        self.author.as_str()
    }

    pub fn title(&self) -> (r: &str)
        ensures
            r@ == self.title@,
    {
        self.title.as_str()
    }

    pub fn details(&self) -> (r: &str)
        ensures
            r@ == "Details of title"@,
    {
        "Details of title"
    }
}

impl Clone for HnStory {
    /// A clone is equal to the original, field for field.
    fn clone(&self) -> (r: Self)
        ensures
            r == *self,
    {
        HnStory {
            id: self.id,
            author: self.author.clone(),
            title: self.title.clone(),
            url: match &self.url {
                Some(u) => Some(u.clone()),
                None => None,
            },
            hntype: self.hntype,
        }
    }
}

impl PartialEq for HnStory {
    fn eq(&self, other: &Self) -> (r: bool) {
        self.id == other.id && self.author == other.author && self.title == other.title && (
        match (&self.url, &other.url) {
            (Some(a), Some(b)) => *a == *b,
            (None, None) => true,
            _ => false,
        }) && self.hntype == other.hntype
    }
}

impl vstd::std_specs::cmp::PartialEqSpecImpl for HnStory {
    open spec fn obeys_eq_spec() -> bool {
        true
    }

    open spec fn eq_spec(&self, other: &Self) -> bool {
        &&& self.id == other.id
        &&& self.author@ == other.author@
        &&& self.title@ == other.title@
        &&& match (self.url, other.url) {
            (Some(a), Some(b)) => a@ == b@,
            (None, None) => true,
            _ => false,
        }
        &&& self.hntype == other.hntype
    }
}

impl Eq for HnStory {

}

} // verus!
