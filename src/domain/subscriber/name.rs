use unicode_segmentation::UnicodeSegmentation;
use vstd::prelude::*;

use crate::domain::ValidationError;

verus! {

/// Largest number of grapheme clusters a name may hold.
pub const MAX_NAME_GRAPHEMES: usize = 256;

/// The number of extended grapheme clusters in `s`.
pub uninterp spec fn grapheme_count(s: Seq<char>) -> nat;

/// Whether `c` has the Unicode `White_Space` property, the set of characters
/// that `char::is_whitespace` accepts and `str::trim` strips.
pub open spec fn is_white_space(c: char) -> bool {
    ('\u{9}' <= c && c <= '\u{d}') || c == ' ' || c == '\u{85}' || c == '\u{a0}'
        || c == '\u{1680}' || ('\u{2000}' <= c && c <= '\u{200a}') || c == '\u{2028}'
        || c == '\u{2029}' || c == '\u{202f}' || c == '\u{205f}' || c == '\u{3000}'
}

/// Relies on unicode_segmentation's `graphemes(true)`: it splits the text into
/// extended grapheme clusters, which depend on the characters alone.
#[verifier::external_body]
fn count_graphemes(s: &str) -> (r: usize)
    ensures
        r as nat == grapheme_count(s@),
{
    s.graphemes(true).count()
}

fn white_space(c: char) -> (r: bool)
    ensures
        r == is_white_space(c),
{
    ('\u{9}' <= c && c <= '\u{d}') || c == ' ' || c == '\u{85}' || c == '\u{a0}'
        || c == '\u{1680}' || ('\u{2000}' <= c && c <= '\u{200a}') || c == '\u{2028}'
        || c == '\u{2029}' || c == '\u{202f}' || c == '\u{205f}' || c == '\u{3000}'
}

/// The text is empty once surrounding whitespace is trimmed.
pub open spec fn is_blank(s: Seq<char>) -> bool {
    forall|i: int| 0 <= i < s.len() ==> is_white_space(#[trigger] s[i])
}

/// The characters a name may never hold.
pub open spec fn is_forbidden(c: char) -> bool {
    c == '/' || c == '(' || c == ')' || c == '"' || c == '<' || c == '>' || c == '\\'
        || c == '{' || c == '}'
}

pub open spec fn has_forbidden(s: Seq<char>) -> bool {
    exists|i: int| 0 <= i < s.len() && is_forbidden(#[trigger] s[i])
}

/// The outcome of validating the text `s` as a name, given its grapheme count.
/// Checks come in a fixed order: blank, then length, then characters.
pub open spec fn name_verdict(s: Seq<char>, graphemes: nat) -> Result<(), ValidationError> {
    if is_blank(s) {
        Err(ValidationError::Empty)
    } else if graphemes > MAX_NAME_GRAPHEMES {
        Err(ValidationError::TooLong)
    } else if has_forbidden(s) {
        Err(ValidationError::ForbiddenCharacter)
    } else {
        Ok(())
    }
}

/// Any text that is not blank, has at most `MAX_NAME_GRAPHEMES` grapheme
/// clusters and holds no forbidden character is a valid name; `parse` then
/// keeps it unchanged.
pub proof fn lemma_valid_text_is_accepted(s: Seq<char>)
    requires
        !is_blank(s),
        grapheme_count(s) <= MAX_NAME_GRAPHEMES,
        !has_forbidden(s),
    ensures
        name_verdict(s, grapheme_count(s)) == Ok::<(), ValidationError>(()),
{
}

fn text_is_blank(s: &str) -> (r: bool)
    ensures
        r == is_blank(s@),
{
    let mut blank = true;
    for c in it: s.chars()
        invariant
            it.seq() == s@,
            blank <==> forall|j: int| 0 <= j < it.index() ==> is_white_space(#[trigger] s@[j]),
    {
        if !white_space(c) {
            blank = false;
        }
    }
    blank
}

fn forbidden_char(c: char) -> (r: bool)
    ensures
        r == is_forbidden(c),
{
    c == '/' || c == '(' || c == ')' || c == '"' || c == '<' || c == '>' || c == '\\'
        || c == '{' || c == '}'
}

fn text_has_forbidden(s: &str) -> (r: bool)
    ensures
        r == has_forbidden(s@),
{
    let mut found = false;
    for c in it: s.chars()
        invariant
            it.seq() == s@,
            found <==> exists|j: int| 0 <= j < it.index() && is_forbidden(#[trigger] s@[j]),
    {
        if forbidden_char(c) {
            found = true;
        }
    }
    found
}

/// A subscriber's display name: not blank, at most `MAX_NAME_GRAPHEMES`
/// grapheme clusters, and free of the forbidden characters.
pub struct SubscriberName(String);

impl View for SubscriberName {
    type V = Seq<char>;

    closed spec fn view(&self) -> Seq<char> {
        self.0@
    }
}

impl SubscriberName {
    #[verifier::type_invariant]
    spec fn well_formed(self) -> bool {
        name_verdict(self.0@, grapheme_count(self.0@)) is Ok
    }

    /// Validates `s` as a name whose grapheme count is already known.
    pub fn check(s: &str, graphemes: usize) -> (r: Result<(), ValidationError>)
        ensures
            r == name_verdict(s@, graphemes as nat),
    {
        if text_is_blank(s) {
            Err(ValidationError::Empty)
        } else if graphemes > MAX_NAME_GRAPHEMES {
            Err(ValidationError::TooLong)
        } else if text_has_forbidden(s) {
            Err(ValidationError::ForbiddenCharacter)
        } else {
            Ok(())
        }
    }

    /// Accepts `s` unchanged as a name, or says why it is refused.
    pub fn parse(s: String) -> (r: Result<SubscriberName, ValidationError>)
        ensures
            match name_verdict(s@, grapheme_count(s@)) {
                Ok(_) => r is Ok && r->Ok_0@ == s@,
                Err(e) => r == Err::<SubscriberName, ValidationError>(e),
            },
    {
        let graphemes = count_graphemes(s.as_str());
        match SubscriberName::check(s.as_str(), graphemes) {
            Ok(()) => Ok(SubscriberName(s)),
            Err(e) => Err(e),
        }
    }

    /// The validated text.
    pub fn as_str(&self) -> (r: &str)
        ensures
            r@ == self@,
            name_verdict(r@, grapheme_count(r@)) is Ok,
    {
        proof {
            use_type_invariant(self);
        }
        self.0.as_str()
    }
}

} // verus!
