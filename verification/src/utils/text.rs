//! Questions about text that the credential rules ask, and the standard
//! library's answers where it gives them without a specification.
use vstd::prelude::*;
use vstd::utf8::encode_utf8;

verus! {

/// `str::eq`: two string slices are equal exactly when they hold the same
/// characters.
pub assume_specification[ <str as PartialEq>::eq ](a: &str, b: &str) -> (same: bool)
    ensures
        same == (a@ == b@),
;

/// The characters of a text that may be absent.
pub open spec fn option_text(text: Option<String>) -> Option<Seq<char>> {
    match text {
        Some(t) => Some(t@),
        None => None,
    }
}

/// A copy of a text that may be absent.
pub fn clone_option_text(text: &Option<String>) -> (copy: Option<String>)
    ensures
        option_text(copy) == option_text(*text),
{
    match text {
        Some(t) => Some(t.clone()),
        None => None,
    }
}

/// Whether two texts that may be absent are both absent or the same text.
pub fn same_option_text(a: &Option<String>, b: &Option<String>) -> (same: bool)
    ensures
        same == (option_text(*a) == option_text(*b)),
{
    match (a, b) {
        (Some(x), Some(y)) => x.as_str().eq(y.as_str()),
        (None, None) => true,
        _ => false,
    }
}

/// Whether a character has the Unicode property White_Space: the tab,
/// the line feed and the three controls after it, the space, the next
/// line control, the no-break space, the Ogham space mark, the spaces of
/// fixed width from the en quad to the hair space, the line and paragraph
/// separators, the narrow no-break space, the medium mathematical space
/// and the ideographic space.
pub open spec fn white_space(c: char) -> bool {
    ||| '\u{9}' <= c <= '\u{d}'
    ||| c == ' '
    ||| c == '\u{85}'
    ||| c == '\u{a0}'
    ||| c == '\u{1680}'
    ||| '\u{2000}' <= c <= '\u{200a}'
    ||| c == '\u{2028}'
    ||| c == '\u{2029}'
    ||| c == '\u{202f}'
    ||| c == '\u{205f}'
    ||| c == '\u{3000}'
}

/// `char::is_whitespace` tells whether the character has the property White_Space.
pub assume_specification[ char::is_whitespace ](c: char) -> (white: bool)
    ensures
        white == white_space(c),
;

/// A text in the form in which `Debug` shows it: between double quotes,
/// with the characters escaped that Rust escapes in a string literal.
pub uninterp spec fn debug_quoted(text: Seq<char>) -> Seq<char>;

/// The lower-case form of a text, by the Unicode mapping that
/// `str::to_lowercase` applies.
pub uninterp spec fn lowercase(text: Seq<char>) -> Seq<char>;

/// The `Debug` form of a string slice, as `format!` writes it.
#[verifier::external_body]
pub(crate) fn debug_text(text: &str) -> (quoted: String)
    ensures
        quoted@ == debug_quoted(text@),
{
    format!("{:?}", text)
}

/// `str::to_lowercase`: the lower-case form of the text.
pub assume_specification[ str::to_lowercase ](text: &str) -> (lower: String)
    ensures
        lower@ == lowercase(text@),
;

/// `str::starts_with` for a string slice as the pattern: whether the text
/// begins with the prefix.
#[verifier::external_body]
pub(crate) fn starts_with(text: &str, prefix: &str) -> (yes: bool)
    ensures
        yes == prefix@.is_prefix_of(text@),
{
    text.starts_with(prefix)
}

/// `String::from_iter` over the characters of a slice: the text that
/// holds them in their order.
#[verifier::external_body]
pub(crate) fn text_of(chars: &[char]) -> (text: String)
    ensures
        text@ == chars@,
{
    String::from_iter(chars.iter())
}

/// Whether a text holds nothing but whitespace: what is left of it after
/// trimming is empty.
pub open spec fn blank(text: Seq<char>) -> bool {
    forall|i: int| 0 <= i < text.len() ==> white_space(#[trigger] text[i])
}

/// The number of bytes that a text takes in UTF-8.
pub open spec fn byte_len(text: Seq<char>) -> nat {
    encode_utf8(text).len()
}

/// The first character of `text` that `list` does not hold.
pub open spec fn first_outside(text: Seq<char>, list: Seq<char>) -> Option<char>
    decreases text.len(),
{
    if text.len() == 0 {
        None
    } else if !list.contains(text[0]) {
        Some(text[0])
    } else {
        first_outside(text.drop_first(), list)
    }
}

/// The first character of `text` that `list` holds.
pub open spec fn first_inside(text: Seq<char>, list: Seq<char>) -> Option<char>
    decreases text.len(),
{
    if text.len() == 0 {
        None
    } else if list.contains(text[0]) {
        Some(text[0])
    } else {
        first_inside(text.drop_first(), list)
    }
}

/// Whether a text holds nothing but whitespace.
pub fn is_blank(text: &str) -> (yes: bool)
    ensures
        yes == blank(text@),
{
    for c in it: text.chars()
        invariant
            it.seq() == text@,
            forall|j: int| 0 <= j < it.index() ==> white_space(#[trigger] text@[j]),
    {
        if !c.is_whitespace() {
            return false;
        }
    }
    true
}

/// Whether `list` holds the character `c`.
pub fn holds(list: &[char], c: char) -> (yes: bool)
    ensures
        yes == list@.contains(c),
{
    let mut i: usize = 0;
    while i < list.len()
        invariant
            i <= list@.len(),
            forall|j: int| 0 <= j < i ==> list@[j] != c,
        decreases list@.len() - i,
    {
        if list[i] == c {
            return true;
        }
        i += 1;
    }
    false
}

/// The first character of `text` that `list` does not hold.
pub fn find_outside(text: &str, list: &[char]) -> (found: Option<char>)
    ensures
        found == first_outside(text@, list@),
{
    assert(text@.skip(0) =~= text@);
    for c in it: text.chars()
        invariant
            it.seq() == text@,
            first_outside(text@, list@) == first_outside(text@.skip(it.index()), list@),
    {
        let ghost rest = text@.skip(it.index());
        assert(rest.drop_first() =~= text@.skip(it.index() + 1));
        if !holds(list, c) {
            return Some(c);
        }
    }
    None
}

/// The first character of `text` that `list` holds.
pub fn find_inside(text: &str, list: &[char]) -> (found: Option<char>)
    ensures
        found == first_inside(text@, list@),
{
    assert(text@.skip(0) =~= text@);
    for c in it: text.chars()
        invariant
            it.seq() == text@,
            first_inside(text@, list@) == first_inside(text@.skip(it.index()), list@),
    {
        let ghost rest = text@.skip(it.index());
        assert(rest.drop_first() =~= text@.skip(it.index() + 1));
        if holds(list, c) {
            return Some(c);
        }
    }
    None
}

/// A text without a character outside `list` holds only characters of `list`.
pub proof fn lemma_first_outside_none(text: Seq<char>, list: Seq<char>)
    ensures
        first_outside(text, list) is None <==> forall|i: int|
            0 <= i < text.len() ==> list.contains(#[trigger] text[i]),
    decreases text.len(),
{
    if text.len() > 0 {
        lemma_first_outside_none(text.drop_first(), list);
        if list.contains(text[0]) {
            if first_outside(text, list) is None {
                assert forall|i: int| 0 <= i < text.len() implies list.contains(
                    #[trigger] text[i],
                ) by {
                    if i > 0 {
                        assert(text[i] == text.drop_first()[i - 1]);
                    }
                }
            } else {
                let rest = text.drop_first();
                if forall|i: int| 0 <= i < text.len() ==> list.contains(#[trigger] text[i]) {
                    assert forall|i: int| 0 <= i < rest.len() implies list.contains(
                        #[trigger] rest[i],
                    ) by {
                    }
                }
            }
        }
    }
}

} // verus!
