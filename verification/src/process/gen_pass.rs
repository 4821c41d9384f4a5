//! Random passwords over a chosen union of character classes.
use vstd::prelude::*;
use vstd::seq_lib::{to_multiset_contains, to_multiset_len};

verus! {

/// The codes of the uppercase letters a password draws from: `A` to `Z`
/// without `O`.
pub const UPPER: [u8; 25] = [
    65, 66, 67, 68, 69, 70, 71, 72, 73, 74, 75, 76, 77, 78, 80, 81, 82, 83, 84, 85, 86, 87, 88,
    89, 90,
];

/// The codes of the lowercase letters a password draws from: `a` to `z`
/// without `l` and `o`.
pub const LOWER: [u8; 24] = [
    97, 98, 99, 100, 101, 102, 103, 104, 105, 106, 107, 109, 110, 112, 113, 114, 115, 116, 117,
    118, 119, 120, 121, 122,
];

/// The codes of the digits a password draws from: `1` to `9`.
pub const NUMBER: [u8; 9] = [49, 50, 51, 52, 53, 54, 55, 56, 57];

/// The codes of the symbols a password draws from: `!@#$%^&*_`.
pub const SYMBOL: [u8; 9] = [33, 64, 35, 36, 37, 94, 38, 42, 95];

/// The shortest password that is generated.
pub const MIN_LENGTH: u8 = 4;

/// Whether `c` is an uppercase letter of the password alphabet.
pub open spec fn is_upper(c: char) -> bool {
    'A' <= c <= 'Z' && c != 'O'
}

/// Whether `c` is a lowercase letter of the password alphabet.
pub open spec fn is_lower(c: char) -> bool {
    'a' <= c <= 'z' && c != 'l' && c != 'o'
}

/// Whether `c` is a digit of the password alphabet.
pub open spec fn is_number(c: char) -> bool {
    '1' <= c <= '9'
}

/// Whether `c` is a symbol of the password alphabet.
pub open spec fn is_symbol(c: char) -> bool {
    ||| c == '!'
    ||| c == '@'
    ||| c == '#'
    ||| c == '$'
    ||| c == '%'
    ||| c == '^'
    ||| c == '&'
    ||| c == '*'
    ||| c == '_'
}

/// Whether `c` belongs to one of the enabled classes.
pub open spec fn in_classes(c: char, upper: bool, lower: bool, number: bool, symbol: bool) -> bool {
    ||| upper && is_upper(c)
    ||| lower && is_lower(c)
    ||| number && is_number(c)
    ||| symbol && is_symbol(c)
}

/// Whether `text` is a password for the given length and classes: of that
/// length, drawn from the enabled classes only, and with at least one
/// character of each enabled class.
pub open spec fn is_password(
    text: Seq<char>,
    length: nat,
    upper: bool,
    lower: bool,
    number: bool,
    symbol: bool,
) -> bool {
    &&& text.len() == length
    &&& forall|i: int| 0 <= i < text.len() ==> in_classes(#[trigger] text[i], upper, lower, number, symbol)
    &&& upper ==> exists|i: int| 0 <= i < text.len() && is_upper(#[trigger] text[i])
    &&& lower ==> exists|i: int| 0 <= i < text.len() && is_lower(#[trigger] text[i])
    &&& number ==> exists|i: int| 0 <= i < text.len() && is_number(#[trigger] text[i])
    &&& symbol ==> exists|i: int| 0 <= i < text.len() && is_symbol(#[trigger] text[i])
}

/// The text whose characters have the given ASCII codes.
pub open spec fn ascii_text(bytes: Seq<u8>) -> Seq<char> {
    Seq::new(bytes.len(), |i: int| bytes[i] as char)
}

/// Why no password was generated.
#[derive(Clone, Copy, Debug, PartialEq, Eq, Structural)]
pub enum GenPassError {
    /// The requested length is below four.
    LengthTooShort,
}

/// `Rng::gen_range` of the `rand` crate on the thread's generator, for the
/// range from zero up to, not including, `bound`. The call panics on an
/// empty range; of the number drawn only its range is known.
#[verifier::external_body]
fn random_index(bound: usize) -> (index: usize)
    requires
        bound > 0,
    ensures
        index < bound,
{
    rand::Rng::gen_range(&mut rand::thread_rng(), 0..bound)
}

/// `SliceRandom::shuffle` of the `rand` crate on the thread's generator:
/// the bytes are swapped among themselves, so the same bytes are there
/// afterwards, each as often as before, in an order that is not known.
#[verifier::external_body]
fn shuffle(bytes: &mut Vec<u8>)
    ensures
        final(bytes)@.to_multiset() == old(bytes)@.to_multiset(),
{
    rand::seq::SliceRandom::shuffle(bytes.as_mut_slice(), &mut rand::thread_rng())
}

/// `String::from_utf8` on bytes below 128, each of which is the UTF-8
/// encoding of the character with that code; `None` stands for its error.
#[verifier::external_body]
fn string_from_ascii(bytes: Vec<u8>) -> (text: Option<String>)
    requires
        forall|i: int| 0 <= i < bytes@.len() ==> bytes@[i] < 128,
    ensures
        text is Some,
        text.unwrap()@ == ascii_text(bytes@),
{
    String::from_utf8(bytes).ok()
}

/// Every code of the four tables is a character of its class.
proof fn lemma_tables()
    ensures
        forall|i: int| 0 <= i < UPPER@.len() ==> is_upper(#[trigger] UPPER@[i] as char),
        forall|i: int| 0 <= i < LOWER@.len() ==> is_lower(#[trigger] LOWER@[i] as char),
        forall|i: int| 0 <= i < NUMBER@.len() ==> is_number(#[trigger] NUMBER@[i] as char),
        forall|i: int| 0 <= i < SYMBOL@.len() ==> is_symbol(#[trigger] SYMBOL@[i] as char),
{
}

/// Whether the bytes are the codes of characters of the enabled classes
/// only, with at least one of each enabled class among them.
spec fn seeded(bytes: Seq<u8>, upper: bool, lower: bool, number: bool, symbol: bool) -> bool {
    &&& forall|i: int|
        0 <= i < bytes.len() ==> in_classes(#[trigger] bytes[i] as char, upper, lower, number, symbol)
    &&& upper ==> exists|i: int| 0 <= i < bytes.len() && is_upper(#[trigger] bytes[i] as char)
    &&& lower ==> exists|i: int| 0 <= i < bytes.len() && is_lower(#[trigger] bytes[i] as char)
    &&& number ==> exists|i: int| 0 <= i < bytes.len() && is_number(#[trigger] bytes[i] as char)
    &&& symbol ==> exists|i: int| 0 <= i < bytes.len() && is_symbol(#[trigger] bytes[i] as char)
}

/// One more character of the enabled classes keeps the bytes seeded.
proof fn lemma_seeded_push(bytes: Seq<u8>, byte: u8, upper: bool, lower: bool, number: bool, symbol: bool)
    requires
        seeded(bytes, upper, lower, number, symbol),
        in_classes(byte as char, upper, lower, number, symbol),
    ensures
        seeded(bytes.push(byte), upper, lower, number, symbol),
{
    let longer = bytes.push(byte);
    assert forall|i: int| 0 <= i < bytes.len() implies longer[i] == bytes[i] by {}
    if upper {
        let i = choose|i: int| 0 <= i < bytes.len() && is_upper(#[trigger] bytes[i] as char);
        assert(is_upper(longer[i] as char));
    }
    if lower {
        let i = choose|i: int| 0 <= i < bytes.len() && is_lower(#[trigger] bytes[i] as char);
        assert(is_lower(longer[i] as char));
    }
    if number {
        let i = choose|i: int| 0 <= i < bytes.len() && is_number(#[trigger] bytes[i] as char);
        assert(is_number(longer[i] as char));
    }
    if symbol {
        let i = choose|i: int| 0 <= i < bytes.len() && is_symbol(#[trigger] bytes[i] as char);
        assert(is_symbol(longer[i] as char));
    }
}

/// The same bytes in another order are as long and stay seeded.
proof fn lemma_seeded_reordered(
    before: Seq<u8>,
    after: Seq<u8>,
    upper: bool,
    lower: bool,
    number: bool,
    symbol: bool,
)
    requires
        seeded(before, upper, lower, number, symbol),
        before.to_multiset() == after.to_multiset(),
    ensures
        seeded(after, upper, lower, number, symbol),
        after.len() == before.len(),
{
    to_multiset_len(before);
    to_multiset_len(after);
    assert forall|i: int| 0 <= i < after.len() implies in_classes(
        #[trigger] after[i] as char,
        upper,
        lower,
        number,
        symbol,
    ) by {
        assert(after.contains(after[i]));
        to_multiset_contains(after, after[i]);
        to_multiset_contains(before, after[i]);
        let j = choose|j: int| 0 <= j < before.len() && before[j] == after[i];
        assert(in_classes(before[j] as char, upper, lower, number, symbol));
    }
    if upper {
        let i = choose|i: int| 0 <= i < before.len() && is_upper(#[trigger] before[i] as char);
        lemma_still_there(before, after, i);
    }
    if lower {
        let i = choose|i: int| 0 <= i < before.len() && is_lower(#[trigger] before[i] as char);
        lemma_still_there(before, after, i);
    }
    if number {
        let i = choose|i: int| 0 <= i < before.len() && is_number(#[trigger] before[i] as char);
        lemma_still_there(before, after, i);
    }
    if symbol {
        let i = choose|i: int| 0 <= i < before.len() && is_symbol(#[trigger] before[i] as char);
        lemma_still_there(before, after, i);
    }
}

/// A byte of `before` stands somewhere in a reordering of it.
proof fn lemma_still_there(before: Seq<u8>, after: Seq<u8>, i: int)
    requires
        0 <= i < before.len(),
        before.to_multiset() == after.to_multiset(),
    ensures
        exists|j: int| 0 <= j < after.len() && #[trigger] after[j] == before[i],
{
    assert(before.contains(before[i]));
    to_multiset_contains(before, before[i]);
    to_multiset_contains(after, before[i]);
}

/// Seeded bytes are the ASCII codes of a password of their length.
proof fn lemma_seeded_is_password(bytes: Seq<u8>, upper: bool, lower: bool, number: bool, symbol: bool)
    requires
        seeded(bytes, upper, lower, number, symbol),
    ensures
        is_password(ascii_text(bytes), bytes.len(), upper, lower, number, symbol),
        forall|i: int| 0 <= i < bytes.len() ==> bytes[i] < 128,
{
    let text = ascii_text(bytes);
    assert forall|i: int| 0 <= i < text.len() implies in_classes(
        #[trigger] text[i],
        upper,
        lower,
        number,
        symbol,
    ) by {
        assert(in_classes(bytes[i] as char, upper, lower, number, symbol));
    }
    assert forall|i: int| 0 <= i < bytes.len() implies bytes[i] < 128 by {
        assert(in_classes(bytes[i] as char, upper, lower, number, symbol));
    }
    if upper {
        let i = choose|i: int| 0 <= i < bytes.len() && is_upper(#[trigger] bytes[i] as char);
        assert(is_upper(text[i]));
    }
    if lower {
        let i = choose|i: int| 0 <= i < bytes.len() && is_lower(#[trigger] bytes[i] as char);
        assert(is_lower(text[i]));
    }
    if number {
        let i = choose|i: int| 0 <= i < bytes.len() && is_number(#[trigger] bytes[i] as char);
        assert(is_number(text[i]));
    }
    if symbol {
        let i = choose|i: int| 0 <= i < bytes.len() && is_symbol(#[trigger] bytes[i] as char);
        assert(is_symbol(text[i]));
    }
}

/// One byte of `table`, chosen at random.
fn pick(table: &[u8]) -> (byte: u8)
    requires
        table@.len() > 0,
    ensures
        table@.contains(byte),
{
    table[random_index(table.len())]
}

/// A password as its ASCII codes: one character of each enabled class,
/// then characters of their union up to `length`, all in random order.
pub fn password_bytes(length: u8, upper: bool, lower: bool, number: bool, symbol: bool) -> (password:
    Vec<u8>)
    requires
        length >= MIN_LENGTH,
        upper || lower || number || symbol,
    ensures
        is_password(ascii_text(password@), length as nat, upper, lower, number, symbol),
        forall|i: int| 0 <= i < password@.len() ==> password@[i] < 128,
{
    let mut password: Vec<u8> = Vec::new();
    let mut char_set: Vec<u8> = Vec::new();
    proof {
        lemma_tables();
    }
    if upper {
        char_set.extend_from_slice(UPPER.as_slice());
        password.push(pick(UPPER.as_slice()));
    }
    if lower {
        char_set.extend_from_slice(LOWER.as_slice());
        password.push(pick(LOWER.as_slice()));
    }
    if number {
        char_set.extend_from_slice(NUMBER.as_slice());
        password.push(pick(NUMBER.as_slice()));
    }
    if symbol {
        char_set.extend_from_slice(SYMBOL.as_slice());
        password.push(pick(SYMBOL.as_slice()));
    }
    assert(seeded(password@, upper, lower, number, symbol)) by {
        if upper {
            assert(is_upper(password@[0] as char));
        }
        if lower {
            assert(is_lower(password@[if upper { 1int } else { 0int }] as char));
        }
        if number {
            assert(is_number(password@[(if upper { 1int } else { 0int }) + (if lower { 1int } else { 0int })] as char));
        }
        if symbol {
            assert(is_symbol(password@[password@.len() - 1] as char));
        }
    }
    while password.len() < length as usize
        invariant
            char_set@.len() > 0,
            forall|i: int|
                0 <= i < char_set@.len() ==> in_classes(
                    #[trigger] char_set@[i] as char,
                    upper,
                    lower,
                    number,
                    symbol,
                ),
            seeded(password@, upper, lower, number, symbol),
            password@.len() <= length || password@.len() <= MIN_LENGTH,
        decreases length - password@.len(),
    {
        let byte = pick(char_set.as_slice());
        proof {
            lemma_seeded_push(password@, byte, upper, lower, number, symbol);
        }
        password.push(byte);
    }
    let ghost chosen = password@;
    shuffle(&mut password);
    proof {
        lemma_seeded_reordered(chosen, password@, upper, lower, number, symbol);
        lemma_seeded_is_password(password@, upper, lower, number, symbol);
    }
    password
}

/// The message of the one error.
pub open spec fn length_message() -> Seq<char> {
    "Length must be greater than 4"@
}

impl GenPassError {
    /// The error as a message for the user.
    pub fn message(&self) -> (text: &'static str)
        ensures
            text@ == length_message(),
    {
        "Length must be greater than 4"
    }
}

/// A password of `length` characters drawn from the enabled classes, with
/// at least one character of each, or `LengthTooShort` for a length below
/// four. A password can only be drawn from some class.
pub fn process_gen_pass(length: u8, upper: bool, lower: bool, number: bool, symbol: bool) -> (generated:
    Result<String, GenPassError>)
    requires
        length >= MIN_LENGTH ==> upper || lower || number || symbol,
    ensures
        match generated {
            Ok(password) => length >= MIN_LENGTH && is_password(
                password@,
                length as nat,
                upper,
                lower,
                number,
                symbol,
            ),
            Err(e) => length < MIN_LENGTH && e == GenPassError::LengthTooShort,
        },
{
    if length < MIN_LENGTH {
        return Err(GenPassError::LengthTooShort);
    }
    let password = password_bytes(length, upper, lower, number, symbol);
    Ok(string_from_ascii(password).unwrap())
}

} // verus!
