//! Random texts of a wanted shape, for trying the credential rules.
use vstd::prelude::*;
use vstd::slice::slice_to_vec;
use crate::domain::user::credentials::handle::{handle_fault, ALLOWED_HANDLE_CHARS};
use crate::domain::user::credentials::password::{password_fault, ALLOWED_PASSWORD_CHARS};
use crate::utils::text::{byte_len, lemma_first_outside_none, text_of, white_space};
use vstd::utf8::is_ascii_chars_encode_utf8;
use quickcheck::Gen;

verus! {

/// `quickcheck::Gen`, the source of random choices; nothing is known of
/// what it holds.
#[verifier::external_type_specification]
#[verifier::external_body]
pub struct ExGen(Gen);

/// `Gen::choose` picks one of the items of the slice, or nothing where
/// the slice is empty.
pub assume_specification<'a, T>[ Gen::choose ](rng: &mut Gen, slice: &'a [T]) -> (picked: Option<
    &'a T,
>)
    ensures
        match picked {
            Some(item) => slice@.contains(*item),
            None => slice@.len() == 0,
        },
;

/// The lower-case letters.
pub const LOWERCASE: [char; 26] = [
    'a', 'b', 'c', 'd', 'e', 'f', 'g', 'h', 'i', 'j', 'k', 'l', 'm', 'n', 'o', 'p', 'q', 'r', 's',
    't', 'u', 'v', 'w', 'x', 'y', 'z',
];

/// The upper-case letters.
pub const UPPERCASE: [char; 26] = [
    'A', 'B', 'C', 'D', 'E', 'F', 'G', 'H', 'I', 'J', 'K', 'L', 'M', 'N', 'O', 'P', 'Q', 'R', 'S',
    'T', 'U', 'V', 'W', 'X', 'Y', 'Z',
];

/// The digits.
pub const NUMBERS: [char; 10] = ['0', '1', '2', '3', '4', '5', '6', '7', '8', '9'];

/// Why a generator cannot be made.
#[derive(Clone, Copy, Debug, PartialEq, Eq, Structural)]
pub enum RandomStringGeneratorError {
    ErrMinLowerThanRequired,
    ErrMaxLowerThanMin,
}

/// The number of characters that the four demands ask for.
pub open spec fn required_count(
    req_lowercase: bool,
    req_uppercase: bool,
    req_number: bool,
    req_symbol: bool,
) -> int {
    (if req_lowercase { 1int } else { 0 }) + (if req_uppercase { 1int } else { 0 }) + (if req_number {
        1int
    } else {
        0
    }) + (if req_symbol { 1int } else { 0 })
}

/// A maker of random texts: between `min_length` and `max_length`
/// characters, drawn from letters, digits and `allowed_chars`, with one
/// character of each demanded kind in front.
#[derive(Debug)]
pub struct RandomStringGenerator {
    min_length: i32,
    max_length: i32,
    req_lowercase: bool,
    req_uppercase: bool,
    req_number: bool,
    req_symbol: bool,
    allowed_chars: Vec<char>,
}

impl RandomStringGenerator {
    #[verifier::type_invariant]
    closed spec fn well_formed(&self) -> bool {
        &&& self.min_length <= self.max_length
        &&& required_count(self.req_lowercase, self.req_uppercase, self.req_number, self.req_symbol)
            <= self.min_length
    }

    /// The fewest characters of a text.
    pub closed spec fn min_length(&self) -> i32 {
        self.min_length
    }

    /// The most characters of a text.
    pub closed spec fn max_length(&self) -> i32 {
        self.max_length
    }

    /// Whether a lower-case letter is demanded.
    pub closed spec fn req_lowercase(&self) -> bool {
        self.req_lowercase
    }

    /// Whether an upper-case letter is demanded.
    pub closed spec fn req_uppercase(&self) -> bool {
        self.req_uppercase
    }

    /// Whether a digit is demanded.
    pub closed spec fn req_number(&self) -> bool {
        self.req_number
    }

    /// Whether one of the generator's own characters is demanded.
    pub closed spec fn req_symbol(&self) -> bool {
        self.req_symbol
    }

    /// The generator's own characters, beside letters and digits.
    pub closed spec fn allowed_chars(&self) -> Seq<char> {
        self.allowed_chars@
    }

    /// The characters that a text of this generator may hold.
    pub open spec fn charset(&self) -> Seq<char> {
        LOWERCASE@ + UPPERCASE@ + NUMBERS@ + self.allowed_chars()
    }

    /// A generator with the given bounds and demands; refused where the
    /// upper bound is below the lower, or the lower bound is below the
    /// number of demands.
    pub fn new(
        min_length: i32,
        max_length: i32,
        req_lowercase: bool,
        req_uppercase: bool,
        req_number: bool,
        req_symbol: bool,
        allowed_chars: &[char],
    ) -> (generator: Result<Self, RandomStringGeneratorError>)
        ensures
            match generator {
                Ok(g) => {
                    &&& min_length <= max_length
                    &&& required_count(req_lowercase, req_uppercase, req_number, req_symbol)
                        <= min_length
                    &&& g.min_length() == min_length
                    &&& g.max_length() == max_length
                    &&& g.req_lowercase() == req_lowercase
                    &&& g.req_uppercase() == req_uppercase
                    &&& g.req_number() == req_number
                    &&& g.req_symbol() == req_symbol
                    &&& g.allowed_chars() == allowed_chars@
                },
                Err(RandomStringGeneratorError::ErrMaxLowerThanMin) => max_length < min_length,
                Err(RandomStringGeneratorError::ErrMinLowerThanRequired) => min_length
                    <= max_length && min_length < required_count(
                    req_lowercase,
                    req_uppercase,
                    req_number,
                    req_symbol,
                ),
            },
    {
        if max_length < min_length {
            return Err(RandomStringGeneratorError::ErrMaxLowerThanMin);
        }
        let mut req_min: i32 = 0;
        if req_lowercase {
            req_min += 1;
        }
        if req_uppercase {
            req_min += 1;
        }
        if req_number {
            req_min += 1;
        }
        if req_symbol {
            req_min += 1;
        }
        if req_min > min_length {
            return Err(RandomStringGeneratorError::ErrMinLowerThanRequired);
        }
        Ok(
            RandomStringGenerator {
                min_length,
                max_length,
                req_lowercase,
                req_uppercase,
                req_number,
                req_symbol,
                allowed_chars: slice_to_vec(allowed_chars),
            },
        )
    }

    /// A random text of the generator's shape: of every outcome, the
    /// number of its characters lies within the two bounds and each of
    /// them is of the generator's characters; the demanded kinds come
    /// first, in the order lower-case, upper-case, digit, symbol.
    pub fn generate(&self, rng: &mut Gen) -> (text: String)
        requires
            self.req_symbol() ==> self.allowed_chars().len() > 0,
        ensures
            self.min_length() <= text@.len() <= self.max_length(),
            forall|i: int| 0 <= i < text@.len() ==> self.charset().contains(#[trigger] text@[i]),
            self.req_lowercase() ==> LOWERCASE@.contains(text@[0]),
            self.req_uppercase() ==> UPPERCASE@.contains(
                text@[required_count(self.req_lowercase(), false, false, false)],
            ),
            self.req_number() ==> NUMBERS@.contains(
                text@[required_count(self.req_lowercase(), self.req_uppercase(), false, false)],
            ),
            self.req_symbol() ==> self.allowed_chars().contains(
                text@[required_count(
                    self.req_lowercase(),
                    self.req_uppercase(),
                    self.req_number(),
                    false,
                )],
            ),
    {
        proof {
            use_type_invariant(self);
        }
        let mut inserted: i32 = 0;
        let mut chars: Vec<char> = Vec::new();
        let ghost charset = self.charset();
        if self.req_lowercase {
            let c = pick(rng, LOWERCASE.as_slice());
            assert(charset.contains(c)) by {
                let k = choose|k: int| 0 <= k < LOWERCASE@.len() && LOWERCASE@[k] == c;
                assert(charset[k] == c);
            }
            chars.push(c);
            inserted += 1;
        }
        if self.req_uppercase {
            let c = pick(rng, UPPERCASE.as_slice());
            assert(charset.contains(c)) by {
                let k = choose|k: int| 0 <= k < UPPERCASE@.len() && UPPERCASE@[k] == c;
                assert(charset[26 + k] == c);
            }
            chars.push(c);
            inserted += 1;
        }
        if self.req_number {
            let c = pick(rng, NUMBERS.as_slice());
            assert(charset.contains(c)) by {
                let k = choose|k: int| 0 <= k < NUMBERS@.len() && NUMBERS@[k] == c;
                assert(charset[52 + k] == c);
            }
            chars.push(c);
            inserted += 1;
        }
        if self.req_symbol {
            let last = self.allowed_chars.len() - 1;
            let char_index = if last <= i32::MAX as usize {
                gen_range(0, last as i32, rng) as usize
            } else {
                gen_range(0, i32::MAX, rng) as usize
            };
            let c = self.allowed_chars[char_index];
            assert(charset.contains(c)) by {
                assert(charset[62 + char_index] == c);
            }
            chars.push(c);
            inserted += 1;
        }
        let mut all: Vec<char> = slice_to_vec(LOWERCASE.as_slice());
        all.append(&mut slice_to_vec(UPPERCASE.as_slice()));
        all.append(&mut slice_to_vec(NUMBERS.as_slice()));
        let mut own = self.allowed_chars.clone();
        all.append(&mut own);
        let more = gen_range(self.min_length - inserted, self.max_length - inserted, rng);
        let ghost front = chars@;
        let mut i: i32 = 0;
        while i < more
            invariant
                0 <= i <= more,
                all@ == charset,
                charset.len() >= 62,
                chars@.len() == inserted + i,
                0 <= inserted <= 4,
                inserted + more <= self.max_length,
                forall|j: int| 0 <= j < chars@.len() ==> charset.contains(#[trigger] chars@[j]),
                forall|j: int| 0 <= j < front.len() ==> chars@[j] == front[j],
                front.len() == inserted,
                inserted == required_count(
                    self.req_lowercase,
                    self.req_uppercase,
                    self.req_number,
                    self.req_symbol,
                ),
                self.req_lowercase ==> LOWERCASE@.contains(front[0]),
                self.req_uppercase ==> UPPERCASE@.contains(
                    front[required_count(self.req_lowercase, false, false, false)],
                ),
                self.req_number ==> NUMBERS@.contains(
                    front[required_count(self.req_lowercase, self.req_uppercase, false, false)],
                ),
                self.req_symbol ==> self.allowed_chars@.contains(
                    front[required_count(
                        self.req_lowercase,
                        self.req_uppercase,
                        self.req_number,
                        false,
                    )],
                ),
            decreases more - i,
        {
            let c = pick(rng, all.as_slice());
            chars.push(c);
            i += 1;
        }
        text_of(chars.as_slice())
    }
}

/// One of the items of a slice that is not empty, picked at random.
pub fn pick(rng: &mut Gen, slice: &[char]) -> (c: char)
    requires
        slice@.len() > 0,
    ensures
        slice@.contains(c),
{
    match rng.choose(slice) {
        Some(c) => *c,
        None => slice[0],
    }
}

/// A number between `min` and `max`, both included, picked at random.
pub fn gen_range(min: i32, max: i32, rng: &mut Gen) -> (picked: i32)
    requires
        min <= max,
    ensures
        min <= picked <= max,
{
    let mut length_range: Vec<i32> = Vec::new();
    let mut next: i32 = min;
    length_range.push(next);
    while next < max
        invariant
            min <= next <= max,
            length_range@.len() > 0,
            forall|j: int| 0 <= j < length_range@.len() ==> min <= #[trigger] length_range@[j] <= max,
        decreases max - next,
    {
        next += 1;
        length_range.push(next);
    }
    match rng.choose(length_range.as_slice()) {
        Some(length) => *length,
        None => min,
    }
}

/// The generator of handles: one to twenty characters that a handle may hold.
pub fn handle_generator() -> (generator: RandomStringGenerator)
    ensures
        generator.min_length() == 1,
        generator.max_length() == 20,
        !generator.req_lowercase() && !generator.req_uppercase() && !generator.req_number()
            && !generator.req_symbol(),
        generator.allowed_chars() == ALLOWED_HANDLE_CHARS@,
{
    RandomStringGenerator {
        min_length: 1,
        max_length: 20,
        req_lowercase: false,
        req_uppercase: false,
        req_number: false,
        req_symbol: false,
        allowed_chars: slice_to_vec(
            ALLOWED_HANDLE_CHARS.as_slice(),
        ),
    }
}

/// The generator of passwords: eight to sixty-four characters, one of
/// each kind that a password must hold among them.
pub fn password_generator() -> (generator: RandomStringGenerator)
    ensures
        generator.min_length() == 8,
        generator.max_length() == 64,
        generator.req_lowercase() && generator.req_uppercase() && generator.req_number()
            && generator.req_symbol(),
        generator.allowed_chars()
            == ALLOWED_PASSWORD_CHARS@,
{
    RandomStringGenerator {
        min_length: 8,
        max_length: 64,
        req_lowercase: true,
        req_uppercase: true,
        req_number: true,
        req_symbol: true,
        allowed_chars: slice_to_vec(
            ALLOWED_PASSWORD_CHARS.as_slice(),
        ),
    }
}

/// A text of eight to sixty-four letters, digits and special characters
/// that begins with a lower-case letter, an upper-case letter, a digit and
/// a special character passes the password rules.
pub proof fn lemma_shaped_password_passes(text: Seq<char>)
    requires
        8 <= text.len() <= 64,
        forall|i: int|
            0 <= i < text.len() ==> (LOWERCASE@ + UPPERCASE@ + NUMBERS@
                + ALLOWED_PASSWORD_CHARS@).contains(#[trigger] text[i]),
        LOWERCASE@.contains(text[0]),
        UPPERCASE@.contains(text[1]),
        NUMBERS@.contains(text[2]),
        ALLOWED_PASSWORD_CHARS@.contains(text[3]),
    ensures
        password_fault(text) is None,
{
    let charset = LOWERCASE@ + UPPERCASE@ + NUMBERS@ + ALLOWED_PASSWORD_CHARS@;
    assert forall|i: int| 0 <= i < text.len() implies '\0' <= #[trigger] text[i] <= '\u{7f}' by {
        // The place of `text[i]` in the four lists tells which character it is.
        let k = choose|k: int| 0 <= k < charset.len() && charset[k] == text[i];
    }
    is_ascii_chars_encode_utf8(text);
    assert(byte_len(text) == text.len());
}

/// Letters, digits and the characters that a handle may hold are all
/// characters that a handle may hold; each takes one byte, and none is
/// whitespace.
pub proof fn lemma_handle_characters(text: Seq<char>)
    requires
        forall|i: int|
            0 <= i < text.len() ==> (LOWERCASE@ + UPPERCASE@ + NUMBERS@
                + ALLOWED_HANDLE_CHARS@).contains(#[trigger] text[i]),
    ensures
        forall|i: int| 0 <= i < text.len() ==> ALLOWED_HANDLE_CHARS@.contains(#[trigger] text[i]),
        forall|i: int| 0 <= i < text.len() ==> !white_space(#[trigger] text[i]),
        byte_len(text) == text.len(),
{
    let charset = LOWERCASE@ + UPPERCASE@ + NUMBERS@ + ALLOWED_HANDLE_CHARS@;
    assert forall|i: int| 0 <= i < text.len() implies ALLOWED_HANDLE_CHARS@.contains(
        #[trigger] text[i],
    ) && '!' <= text[i] <= '~' by {
        // The place of `text[i]` in the four lists tells which character it is.
        let k = choose|k: int| 0 <= k < charset.len() && charset[k] == text[i];
    }
    is_ascii_chars_encode_utf8(text);
}

/// A text of one to twenty letters, digits and characters that a handle
/// may hold has no fault as a handle.
pub proof fn lemma_shaped_handle_passes(text: Seq<char>)
    requires
        1 <= text.len() <= 20,
        forall|i: int|
            0 <= i < text.len() ==> (LOWERCASE@ + UPPERCASE@ + NUMBERS@
                + ALLOWED_HANDLE_CHARS@).contains(#[trigger] text[i]),
    ensures
        handle_fault(text) is None,
{
    lemma_handle_characters(text);
    assert(!white_space(text[0]));
    lemma_first_outside_none(text, ALLOWED_HANDLE_CHARS@);
}

/// A random handle, as the generator of handles makes it: whatever is
/// drawn, it has one to twenty characters, each of them one that a handle
/// may hold, and so it has no fault as a handle.
pub fn generate_handle(rng: &mut Gen) -> (handle: String)
    ensures
        1 <= handle@.len() <= 20,
        forall|i: int|
            0 <= i < handle@.len() ==> ALLOWED_HANDLE_CHARS@.contains(#[trigger] handle@[i]),
        handle_fault(handle@) is None,
{
    let generator = handle_generator();
    let handle = generator.generate(rng);
    proof {
        lemma_handle_characters(handle@);
        lemma_shaped_handle_passes(handle@);
    }
    handle
}

/// A random password: whatever is drawn, it passes the password rules.
pub fn generate_password(rng: &mut Gen) -> (password: String)
    ensures
        password_fault(password@) is None,
{
    let generator = password_generator();
    let password = generator.generate(rng);
    proof {
        lemma_shaped_password_passes(password@);
    }
    password
}

} // verus!
