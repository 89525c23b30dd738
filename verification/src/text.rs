//! Text: numbers in decimal, and the few string operations that source ids and
//! messages are made with.
use vstd::prelude::*;
use vstd::string::*;

verus! {

/// `String::push` appends the character behind the string's last one.
pub assume_specification[ String::push ](text: &mut String, character: char)
    ensures
        final(text)@ == old(text)@.push(character),
;

/// `String::from` turns a string slice into a string of the same characters.
pub assume_specification<'a>[ <String as From<&'a str>>::from ](text: &str) -> (copy: String)
    ensures
        copy@ == text@,
;

/// The conversion of a type to itself, under which `Into<String>` takes a
/// `String`, hands its argument back.
pub assume_specification<Value>[ <Value as From<Value>>::from ](value: Value) -> (same: Value)
    ensures
        same == value,
;

/// The character of a digit.
pub open spec fn digit_char(digit: int) -> char {
    (digit + '0' as int) as char
}

/// The character is one of `0` to `9`.
pub open spec fn is_digit(character: char) -> bool {
    '0' <= character <= '9'
}

/// What a digit stands for.
pub open spec fn digit_value(character: char) -> nat {
    (character as int - '0' as int) as nat
}

/// `number` in decimal, without leading zeros.
pub open spec fn decimal(number: nat) -> Seq<char>
    decreases number,
{
    if number < 10 {
        seq![digit_char(number as int)]
    } else {
        decimal(number / 10).push(digit_char((number % 10) as int))
    }
}

/// `number` in decimal, with a `-` before a negative one.
pub open spec fn signed_decimal(number: int) -> Seq<char> {
    if number < 0 {
        seq!['-'] + decimal((-number) as nat)
    } else {
        decimal(number as nat)
    }
}

/// The characters are digits, and there is at least one.
pub open spec fn are_digits(text: Seq<char>) -> bool {
    text.len() > 0 && forall|i: int| 0 <= i < text.len() ==> is_digit(#[trigger] text[i])
}

/// What a run of digits stands for.
pub open spec fn digits_value(text: Seq<char>) -> nat
    decreases text.len(),
{
    if text.len() == 0 {
        0
    } else {
        10 * digits_value(text.drop_last()) + digit_value(text.last())
    }
}

/// `text` behind its first character where that is `sign`, else all of it.
pub open spec fn without_sign(text: Seq<char>, sign: char) -> Seq<char> {
    if text.len() > 0 && text[0] == sign {
        text.subrange(1, text.len() as int)
    } else {
        text
    }
}

/// The number that `text` writes: digits, with a `+` before them or not.
pub open spec fn written_unsigned(text: Seq<char>) -> Option<nat> {
    let digits = without_sign(text, '+');
    if are_digits(digits) {
        Some(digits_value(digits))
    } else {
        None
    }
}

/// The number that `text` writes: digits, with a sign before them or not.
pub open spec fn written_signed(text: Seq<char>) -> Option<int> {
    if text.len() > 0 && text[0] == '-' {
        let digits = text.subrange(1, text.len() as int);
        if are_digits(digits) {
            Some(-digits_value(digits))
        } else {
            None
        }
    } else {
        match written_unsigned(text) {
            Some(number) => Some(number as int),
            None => None,
        }
    }
}

/// `text` starts with `prefix`.
pub open spec fn starts_with(text: Seq<char>, prefix: Seq<char>) -> bool {
    prefix.len() <= text.len() && text.subrange(0, prefix.len() as int) == prefix
}

/// What stands behind the prefix.
pub open spec fn behind(text: Seq<char>, prefix: Seq<char>) -> Seq<char> {
    text.subrange(prefix.len() as int, text.len() as int)
}

/// The characters of `text`.
pub fn chars_of(text: &str) -> (chars: Vec<char>)
    ensures
        chars@ == text@,
{
    let mut chars: Vec<char> = Vec::new();
    for character in iter: text.chars()
        invariant
            iter.seq() == text@,
            chars@ == text@.subrange(0, iter.index() as int),
    {
        chars.push(character);
    }
    assert(text@.subrange(0, text@.len() as int) =~= text@);
    chars
}

/// The string of `chars[from..to]`.
pub fn string_of(chars: &Vec<char>, from: usize, to: usize) -> (text: String)
    requires
        from <= to <= chars@.len(),
    ensures
        text@ == chars@.subrange(from as int, to as int),
{
    let mut text: String = String::new();
    let mut i: usize = from;
    while i < to
        invariant
            from <= i <= to <= chars@.len(),
            text@ == chars@.subrange(from as int, i as int),
        decreases to - i,
    {
        text.push(chars[i]);
        i += 1;
    }
    text
}

/// The two texts as one.
pub fn joined(one: &str, other: &str) -> (text: String)
    ensures
        text@ == one@ + other@,
{
    let mut text: String = one.to_owned();
    text.append(other);
    text
}

/// `number` in decimal.
pub fn decimal_text(number: u64) -> (text: String)
    ensures
        text@ == decimal(number as nat),
    decreases number,
{
    let mut text: String = if number < 10 {
        String::new()
    } else {
        decimal_text(number / 10)
    };
    let digit: u8 = 48u8 + (number % 10) as u8;
    text.push(digit as char);
    assert(text@ =~= decimal(number as nat));
    text
}

/// `number` in decimal, with its sign if it is negative.
pub fn signed_decimal_text(number: i64) -> (text: String)
    ensures
        text@ == signed_decimal(number as int),
{
    if number < 0 {
        let magnitude: u64 = (-(number as i128)) as u64;
        let mut text: String = String::new();
        text.push('-');
        text.append(decimal_text(magnitude).as_str());
        assert(text@ =~= signed_decimal(number as int));
        text
    } else {
        decimal_text(number as u64)
    }
}

/// The text `behind` a prefix, where there is that prefix.
pub fn strip_prefix(text: &str, prefix: &str) -> (rest: Option<String>)
    ensures
        rest is Some <==> starts_with(text@, prefix@),
        rest matches Some(found) ==> found@ == behind(text@, prefix@),
{
    let chars: Vec<char> = chars_of(text);
    let wanted: Vec<char> = chars_of(prefix);
    if wanted.len() > chars.len() {
        return None;
    }
    let mut i: usize = 0;
    while i < wanted.len()
        invariant
            i <= wanted@.len() <= chars@.len(),
            chars@ == text@,
            wanted@ == prefix@,
            forall|j: int| 0 <= j < i ==> chars@[j] == wanted@[j],
        decreases wanted@.len() - i,
    {
        if chars[i] != wanted[i] {
            assert(chars@.subrange(0, wanted@.len() as int)[i as int] != wanted@[i as int]);
            return None;
        }
        i += 1;
    }
    assert(chars@.subrange(0, wanted@.len() as int) =~= wanted@);
    Some(string_of(&chars, wanted.len(), chars.len()))
}

/// Reads `chars[from..]` as digits worth at most `limit`.
fn read_digits(chars: &Vec<char>, from: usize, limit: u64) -> (number: Option<u64>)
    requires
        from <= chars@.len(),
    ensures
        ({
            let digits = chars@.subrange(from as int, chars@.len() as int);
            &&& number is Some <==> are_digits(digits) && digits_value(digits) <= limit
            &&& number matches Some(value) ==> value == digits_value(digits)
        }),
{
    let ghost digits = chars@.subrange(from as int, chars@.len() as int);
    if from == chars.len() {
        return None;
    }
    let mut value: u64 = 0;
    let mut i: usize = from;
    assert(digits.subrange(0, 0) =~= Seq::<char>::empty());
    while i < chars.len()
        invariant
            from <= i <= chars@.len(),
            digits == chars@.subrange(from as int, chars@.len() as int),
            value == digits_value(digits.subrange(0, i - from)),
            value <= limit,
            forall|j: int| 0 <= j < i - from ==> is_digit(#[trigger] digits[j]),
        decreases chars@.len() - i,
    {
        let character: char = chars[i];
        let ghost read = digits.subrange(0, i - from);
        let ghost longer = digits.subrange(0, i + 1 - from);
        assert(longer.drop_last() =~= read);
        assert(digits[i - from] == character);
        if !(character >= '0' && character <= '9') {
            assert(!is_digit(digits[i - from]));
            return None;
        }
        let digit: u64 = character as u64 - '0' as u64;
        let wide: u128 = value as u128 * 10 + digit as u128;
        if wide > limit as u128 {
            proof {
                lemma_digits_value_grows(digits, i + 1 - from);
            }
            return None;
        }
        value = wide as u64;
        i += 1;
    }
    assert(digits.subrange(0, digits.len() as int) =~= digits);
    Some(value)
}

/// More digits are worth at least as much.
proof fn lemma_digits_value_grows(text: Seq<char>, len: int)
    requires
        0 <= len <= text.len(),
    ensures
        digits_value(text.subrange(0, len)) <= digits_value(text),
    decreases text.len(),
{
    if len < text.len() {
        lemma_digits_value_grows(text.drop_last(), len);
        assert(text.drop_last().subrange(0, len) =~= text.subrange(0, len));
    } else {
        assert(text.subrange(0, len) =~= text);
    }
}

/// Reads an unsigned number no larger than `limit`.
pub fn parse_unsigned(text: &str, limit: u64) -> (number: Option<u64>)
    ensures
        number is Some <==> written_unsigned(text@) is Some && written_unsigned(text@)->0 <= limit,
        number matches Some(value) ==> Some(value as nat) == written_unsigned(text@),
{
    let chars: Vec<char> = chars_of(text);
    let from: usize = if chars.len() > 0 && chars[0] == '+' {
        1
    } else {
        0
    };
    assert(chars@.subrange(from as int, chars@.len() as int) =~= without_sign(text@, '+'));
    read_digits(&chars, from, limit)
}

/// Reads a `u32`.
pub fn parse_u32(text: &str) -> (number: Option<u32>)
    ensures
        number is Some <==> written_unsigned(text@) is Some && written_unsigned(text@)->0
            <= u32::MAX,
        number matches Some(value) ==> Some(value as nat) == written_unsigned(text@),
{
    match parse_unsigned(text, u32::MAX as u64) {
        Some(value) => Some(value as u32),
        None => None,
    }
}

/// Reads an `isize`.
pub fn parse_isize(text: &str) -> (number: Option<isize>)
    ensures
        number is Some <==> written_signed(text@) is Some && isize::MIN <= written_signed(text@)->0
            <= isize::MAX,
        number matches Some(value) ==> Some(value as int) == written_signed(text@),
{
    let chars: Vec<char> = chars_of(text);
    if chars.len() > 0 && chars[0] == '-' {
        // The most negative number has no positive counterpart.
        let limit: u64 = isize::MAX as u64 + 1;
        match read_digits(&chars, 1, limit) {
            Some(value) => Some((-(value as i128)) as isize),
            None => None,
        }
    } else {
        match parse_unsigned(text, isize::MAX as u64) {
            Some(value) => Some(value as isize),
            None => None,
        }
    }
}

/// A number in decimal is made of digits, and they are worth that number.
pub proof fn decimal_is_read_back(number: nat)
    ensures
        are_digits(decimal(number)),
        digits_value(decimal(number)) == number,
        written_unsigned(decimal(number)) == Some(number),
        written_signed(decimal(number)) == Some(number as int),
    decreases number,
{
    let text = decimal(number);
    if number < 10 {
        assert(text.drop_last() =~= Seq::<char>::empty());
        assert(digits_value(text.drop_last()) == 0);
        assert(digit_value(text.last()) == number);
    } else {
        decimal_is_read_back(number / 10);
        assert(text.drop_last() =~= decimal(number / 10));
        assert(digit_value(text.last()) == number % 10);
    }
    assert(is_digit(text[0]));
}

/// A signed number in decimal reads as that number.
pub proof fn signed_decimal_is_read_back(number: int)
    ensures
        written_signed(signed_decimal(number)) == Some(number),
{
    if number < 0 {
        let digits = decimal((-number) as nat);
        decimal_is_read_back((-number) as nat);
        assert(signed_decimal(number).subrange(1, signed_decimal(number).len() as int) =~= digits);
    } else {
        decimal_is_read_back(number as nat);
    }
}

/// Different numbers have different decimals.
pub proof fn decimals_are_distinct(one: nat, other: nat)
    requires
        decimal(one) == decimal(other),
    ensures
        one == other,
{
    decimal_is_read_back(one);
    decimal_is_read_back(other);
}

/// What a prefix was put before is found behind it.
pub proof fn a_prefix_comes_off_again(prefix: Seq<char>, rest: Seq<char>)
    ensures
        starts_with(prefix + rest, prefix),
        behind(prefix + rest, prefix) == rest,
{
    assert((prefix + rest).subrange(0, prefix.len() as int) =~= prefix);
    assert(behind(prefix + rest, prefix) =~= rest);
}

/// The two texts are the same.
pub fn same_text(one: &str, other: &str) -> (same: bool)
    ensures
        same == (one@ == other@),
{
    one.to_owned() == other.to_owned()
}

/// The character of a hexadecimal digit, in capitals.
pub open spec fn hex_char(digit: int) -> char {
    if digit < 10 {
        (digit + '0' as int) as char
    } else {
        (digit - 10 + 'A' as int) as char
    }
}

/// The last `digits` hexadecimal digits of `number`.
pub open spec fn hex(number: nat, digits: nat) -> Seq<char>
    decreases digits,
{
    if digits == 0 {
        Seq::empty()
    } else {
        hex(number / 16, (digits - 1) as nat).push(hex_char((number % 16) as int))
    }
}

/// The last `digits` hexadecimal digits of `number`.
pub fn hex_text(number: u128, digits: u32) -> (text: String)
    ensures
        text@ == hex(number as nat, digits as nat),
    decreases digits,
{
    if digits == 0 {
        return String::new();
    }
    let mut text: String = hex_text(number / 16, digits - 1);
    let digit: u8 = (number % 16) as u8;
    if digit < 10 {
        text.push((48u8 + digit) as char);
    } else {
        text.push((55u8 + digit) as char);
    }
    assert(text@ =~= hex(number as nat, digits as nat));
    text
}

/// The lower-case counterpart of an ASCII capital; any other character is its
/// own.
pub open spec fn ascii_lower(character: char) -> char {
    if 'A' <= character <= 'Z' {
        (character as int + 32) as char
    } else {
        character
    }
}

/// The texts differ at most in the case of ASCII letters.
pub open spec fn same_but_for_case(one: Seq<char>, other: Seq<char>) -> bool {
    one.len() == other.len() && forall|i: int|
        0 <= i < one.len() ==> ascii_lower(#[trigger] one[i]) == ascii_lower(other[i])
}

fn lower_case(character: char) -> (lower: char)
    ensures
        lower == ascii_lower(character),
{
    if character >= 'A' && character <= 'Z' {
        (character as u8 + 32) as char
    } else {
        character
    }
}

/// Compares two texts, taking ASCII capitals for small letters.
pub fn eq_ignore_ascii_case(one: &str, other: &str) -> (same: bool)
    ensures
        same == same_but_for_case(one@, other@),
{
    let left: Vec<char> = chars_of(one);
    let right: Vec<char> = chars_of(other);
    if left.len() != right.len() {
        return false;
    }
    let mut i: usize = 0;
    while i < left.len()
        invariant
            i <= left@.len() == right@.len(),
            left@ == one@,
            right@ == other@,
            forall|j: int| 0 <= j < i ==> ascii_lower(#[trigger] one@[j]) == ascii_lower(other@[j]),
        decreases left@.len() - i,
    {
        if lower_case(left[i]) != lower_case(right[i]) {
            assert(ascii_lower(one@[i as int]) != ascii_lower(other@[i as int]));
            return false;
        }
        i += 1;
    }
    true
}

/// What stands behind the last `separator`, or all of the text if there is
/// none.
pub open spec fn last_piece(text: Seq<char>, separator: char) -> Seq<char>
    decreases text.len(),
{
    if text.len() == 0 || text.last() == separator {
        Seq::empty()
    } else {
        last_piece(text.drop_last(), separator).push(text.last())
    }
}

/// What stands behind the last `separator`, or all of the text if there is
/// none.
pub fn piece_behind_last(text: &str, separator: char) -> (piece: String)
    ensures
        piece@ == last_piece(text@, separator),
{
    let chars: Vec<char> = chars_of(text);
    let mut piece: String = String::new();
    let mut i: usize = 0;
    while i < chars.len()
        invariant
            i <= chars@.len(),
            piece@ == last_piece(chars@.subrange(0, i as int), separator),
        decreases chars@.len() - i,
    {
        let character: char = chars[i];
        assert(chars@.subrange(0, i + 1).drop_last() =~= chars@.subrange(0, i as int));
        if character == separator {
            piece = String::new();
        } else {
            piece.push(character);
        }
        i += 1;
    }
    assert(chars@.subrange(0, chars@.len() as int) =~= chars@);
    piece
}

/// The non-empty pieces between separators, in order.
pub open spec fn pieces(text: Seq<char>, separator: char) -> Seq<Seq<char>>
    decreases text.len(),
{
    if text.len() == 0 {
        Seq::empty()
    } else {
        let before = text.drop_last();
        let found = pieces(before, separator);
        if text.last() == separator {
            found
        } else if before.len() == 0 || before.last() == separator {
            found.push(seq![text.last()])
        } else {
            found.update(found.len() - 1, found.last().push(text.last()))
        }
    }
}

/// A text that ends within a piece has a piece.
proof fn lemma_open_piece(text: Seq<char>, separator: char)
    requires
        text.len() > 0,
        text.last() != separator,
    ensures
        pieces(text, separator).len() > 0,
    decreases text.len(),
{
    let before = text.drop_last();
    if before.len() > 0 && before.last() != separator {
        lemma_open_piece(before, separator);
    }
}

/// The second of the non-empty pieces between separators.
pub fn second_piece(text: &str, separator: char) -> (piece: Option<String>)
    ensures
        piece is Some <==> pieces(text@, separator).len() > 1,
        piece matches Some(found) ==> found@ == pieces(text@, separator)[1],
{
    let chars: Vec<char> = chars_of(text);
    let mut second: String = String::new();
    // Pieces seen so far; whether the last of them may still grow.
    let mut count: usize = 0;
    let mut open: bool = false;
    let mut i: usize = 0;
    assert(chars@.subrange(0, 0) =~= Seq::<char>::empty());
    while i < chars.len()
        invariant
            i <= chars@.len(),
            count <= i,
            count == pieces(chars@.subrange(0, i as int), separator).len(),
            open == (i > 0 && chars@[i - 1] != separator),
            open ==> count > 0,
            count > 1 ==> second@ == pieces(chars@.subrange(0, i as int), separator)[1],
            count <= 1 ==> second@ == Seq::<char>::empty(),
        decreases chars@.len() - i,
    {
        let ghost read = chars@.subrange(0, i as int);
        let ghost longer = chars@.subrange(0, i + 1);
        assert(longer.drop_last() =~= read);
        let character: char = chars[i];
        if character == separator {
            open = false;
        } else {
            if !open {
                count += 1;
                open = true;
            } else {
                proof {
                    lemma_open_piece(read, separator);
                }
            }
            if count == 2 {
                second.push(character);
            }
            proof {
                if count == 2 {
                    assert(second@ =~= pieces(longer, separator)[1]);
                }
            }
        }
        i += 1;
    }
    assert(chars@.subrange(0, chars@.len() as int) =~= chars@);
    if count > 1 {
        Some(second)
    } else {
        None
    }
}

/// A number that is written in decimal is read back as that number, whichever
/// of the readers is used, as long as it fits.
pub proof fn written_numbers_are_read_back(
    number: u64,
    written: String,
    text: &str,
    limit: u64,
    unsigned: Option<u64>,
    small: Option<u32>,
    signed: Option<isize>,
)
    requires
        call_ensures(decimal_text, (number,), written),
        text@ == written@,
        call_ensures(parse_unsigned, (text, limit), unsigned),
        call_ensures(parse_u32, (text,), small),
        call_ensures(parse_isize, (text,), signed),
    ensures
        unsigned == if number <= limit {
            Some(number)
        } else {
            None
        },
        small is Some <==> number <= u32::MAX,
        small matches Some(value) ==> value == number,
        signed is Some <==> number <= isize::MAX,
        signed matches Some(value) ==> value == number,
{
    decimal_is_read_back(number as nat);
}

/// A negative number is written with a minus before its digits, and is read back
/// as that number.
pub proof fn written_signed_numbers_are_read_back(
    number: i64,
    written: String,
    text: &str,
    signed: Option<isize>,
)
    requires
        call_ensures(signed_decimal_text, (number,), written),
        text@ == written@,
        call_ensures(parse_isize, (text,), signed),
    ensures
        number < 0 ==> written@.len() > 1 && written@[0] == '-',
        signed is Some <==> isize::MIN <= number <= isize::MAX,
        signed matches Some(value) ==> value == number,
{
    signed_decimal_is_read_back(number as int);
    if number < 0 {
        decimal_is_read_back((-number) as nat);
    }
}

/// The digits of a number are those of its tenth part, and then its last one.
pub proof fn decimals_grow_by_a_digit(number: nat)
    ensures
        decimal(number).last() as int == '0' as int + number % 10,
        number < 10 ==> decimal(number).len() == 1,
        number >= 10 ==> decimal(number).drop_last() == decimal(number / 10),
{
    if number >= 10 {
        assert(decimal(number).drop_last() =~= decimal(number / 10));
    }
}

/// A sign does not change what digits stand for, and more than one sign, no
/// digit at all, or anything else than a digit stands for nothing.
pub proof fn only_signed_digits_are_numbers(text: Seq<char>)
    ensures
        text.len() == 0 ==> written_unsigned(text) is None && written_signed(text) is None,
        are_digits(text) ==> written_unsigned(text) == Some(digits_value(text)) && written_unsigned(
            seq!['+'] + text,
        ) == Some(digits_value(text)) && written_signed(seq!['-'] + text) == Some(
            -digits_value(text),
        ),
        (exists|i: int| 0 < i < text.len() && !('0' <= #[trigger] text[i] <= '9'))
            ==> written_unsigned(text) is None && written_signed(text) is None,
{
    assert((seq!['+'] + text).subrange(1, (text.len() + 1) as int) =~= text);
    assert((seq!['-'] + text).subrange(1, (text.len() + 1) as int) =~= text);
    if are_digits(text) {
        assert(is_digit(text[0]));
    }
    if exists|i: int| 0 < i < text.len() && !('0' <= #[trigger] text[i] <= '9') {
        let i = choose|i: int| 0 < i < text.len() && !('0' <= #[trigger] text[i] <= '9');
        let behind_sign = text.subrange(1, text.len() as int);
        assert(behind_sign[i - 1] == text[i]);
        assert(!is_digit(text[i]));
    }
}

/// What is found behind a prefix is the rest of the text, and there is such a
/// rest exactly if the text starts with the prefix.
pub proof fn prefixes_come_off(text: &str, prefix: &str, rest: Option<String>)
    requires
        call_ensures(strip_prefix, (text, prefix), rest),
    ensures
        rest matches Some(found) ==> prefix@ + found@ == text@,
        rest is None ==> !exists|found: Seq<char>| #[trigger] (prefix@ + found) == text@,
{
    if rest is Some {
        assert(prefix@ + rest->0@ =~= text@);
    } else if exists|found: Seq<char>| #[trigger] (prefix@ + found) == text@ {
        let found = choose|found: Seq<char>| #[trigger] (prefix@ + found) == text@;
        a_prefix_comes_off_again(prefix@, found);
    }
}

/// The piece behind the last separator has none in it, and is the end of the
/// text: all of it, or what stands behind a separator.
pub proof fn the_last_piece_ends_the_text(text: &str, separator: char, piece: String)
    requires
        call_ensures(piece_behind_last, (text, separator), piece),
    ensures
        piece@.len() <= text@.len(),
        text@.subrange(text@.len() - piece@.len(), text@.len() as int) == piece@,
        !piece@.contains(separator),
        piece@.len() < text@.len() ==> text@[text@.len() - piece@.len() - 1] == separator,
{
    lemma_last_piece(text@, separator);
}

proof fn lemma_last_piece(text: Seq<char>, separator: char)
    ensures
        last_piece(text, separator).len() <= text.len(),
        text.subrange(text.len() - last_piece(text, separator).len(), text.len() as int)
            == last_piece(text, separator),
        !last_piece(text, separator).contains(separator),
        last_piece(text, separator).len() < text.len() ==> text[text.len() - last_piece(
            text,
            separator,
        ).len() - 1] == separator,
    decreases text.len(),
{
    let piece = last_piece(text, separator);
    if text.len() == 0 || text.last() == separator {
        assert(text.subrange(text.len() as int, text.len() as int) =~= piece);
    } else {
        let before = text.drop_last();
        lemma_last_piece(before, separator);
        let shorter = last_piece(before, separator);
        assert(text.subrange(text.len() - piece.len(), text.len() as int) =~= piece) by {
            assert(before.subrange(before.len() - shorter.len(), before.len() as int) =~= shorter);
            assert forall|i: int| 0 <= i < piece.len() implies text[text.len() - piece.len() + i]
                == #[trigger] piece[i] by {
                if i < shorter.len() {
                    assert(shorter[i] == before.subrange(
                        before.len() - shorter.len(),
                        before.len() as int,
                    )[i]);
                }
            }
        }
        assert forall|i: int| 0 <= i < piece.len() implies #[trigger] piece[i] != separator by {
            if i < shorter.len() {
                assert(shorter.contains(shorter[i]));
            }
        }
    }
}

/// Two halves, each with a separator behind it, are told apart: the second piece
/// is the second half.
pub proof fn the_second_piece_is_the_second_half(
    first: Seq<char>,
    second: Seq<char>,
    separator: char,
    text: &str,
    piece: Option<String>,
)
    requires
        call_ensures(second_piece, (text, separator), piece),
        first.len() > 0,
        second.len() > 0,
        !first.contains(separator),
        !second.contains(separator),
        text@ == first + seq![separator] + second + seq![separator],
    ensures
        piece matches Some(found) && found@ == second,
{
    lemma_run(first, separator, first.len() as int);
    assert(first.subrange(0, first.len() as int) =~= first);
    let divided = first + seq![separator];
    assert(divided.drop_last() =~= first);
    assert(divided.last() == separator);
    assert(pieces(divided, separator) == seq![first]);
    lemma_second_run(first, second, separator, second.len() as int);
    assert(second.subrange(0, second.len() as int) =~= second);
    let both = divided + second;
    assert(text@.drop_last() =~= both);
    assert(text@.last() == separator);
}

proof fn lemma_run(text: Seq<char>, separator: char, len: int)
    requires
        !text.contains(separator),
        0 < len <= text.len(),
    ensures
        pieces(text.subrange(0, len), separator) == seq![text.subrange(0, len)],
    decreases len,
{
    let run = text.subrange(0, len);
    assert(run.last() == text[len - 1]);
    assert(text.contains(text[len - 1]));
    assert(run.drop_last() =~= text.subrange(0, len - 1));
    if len > 1 {
        lemma_run(text, separator, len - 1);
        assert(text.contains(text[len - 2]));
        assert(pieces(run, separator) =~= seq![text.subrange(0, len - 1).push(run.last())]);
        assert(text.subrange(0, len - 1).push(run.last()) =~= run);
    } else {
        assert(pieces(run.drop_last(), separator) =~= Seq::<Seq<char>>::empty());
        assert(seq![run.last()] =~= run);
        assert(pieces(run, separator) =~= seq![run]);
    }
}

proof fn lemma_second_run(first: Seq<char>, second: Seq<char>, separator: char, len: int)
    requires
        pieces(first + seq![separator], separator) == seq![first],
        !second.contains(separator),
        0 < len <= second.len(),
    ensures
        pieces(first + seq![separator] + second.subrange(0, len), separator) == seq![
            first,
            second.subrange(0, len),
        ],
    decreases len,
{
    let divided = first + seq![separator];
    let text = divided + second.subrange(0, len);
    assert(text.last() == second[len - 1]);
    assert(second.contains(second[len - 1]));
    assert(text.drop_last() =~= divided + second.subrange(0, len - 1));
    if len > 1 {
        lemma_second_run(first, second, separator, len - 1);
        assert(text.drop_last().last() == second[len - 2]);
        assert(second.contains(second[len - 2]));
        assert(second.subrange(0, len - 1).push(second[len - 1]) =~= second.subrange(0, len));
        assert(pieces(text, separator) =~= seq![first, second.subrange(0, len)]);
    } else {
        assert(divided + second.subrange(0, 0) =~= divided);
        assert(seq![second[0]] =~= second.subrange(0, 1));
        assert(pieces(text, separator) =~= seq![first, second.subrange(0, 1)]);
    }
}

/// Two texts are the same but for case exactly if they are as long as each
/// other, and wherever they differ, one has an ASCII letter in one case and the
/// other the same letter in the other.
pub proof fn only_the_case_of_letters_is_ignored(one: &str, other: &str, same: bool)
    requires
        call_ensures(eq_ignore_ascii_case, (one, other), same),
    ensures
        same <==> one@.len() == other@.len() && forall|i: int|
            0 <= i < one@.len() ==> {
                let left = #[trigger] one@[i];
                let right = other@[i];
                ||| left == right
                ||| 'A' <= left <= 'Z' && right as int == left as int + 32
                ||| 'A' <= right <= 'Z' && left as int == right as int + 32
            },
{
    assert forall|left: char, right: char|
        ascii_lower(left) == ascii_lower(right) <==> {
            ||| left == right
            ||| 'A' <= left <= 'Z' && right as int == left as int + 32
            ||| 'A' <= right <= 'Z' && left as int == right as int + 32
        } by {}
    if one@.len() == other@.len() && forall|i: int|
        0 <= i < one@.len() ==> {
            let left = #[trigger] one@[i];
            let right = other@[i];
            ||| left == right
            ||| 'A' <= left <= 'Z' && right as int == left as int + 32
            ||| 'A' <= right <= 'Z' && left as int == right as int + 32
        } {
        assert forall|i: int| 0 <= i < one@.len() implies ascii_lower(#[trigger] one@[i])
            == ascii_lower(other@[i]) by {}
    }
}

/// Two texts make one that starts with the first and goes on with the second.
pub proof fn joined_texts_are_both(one: &str, other: &str, text: String)
    requires
        call_ensures(joined, (one, other), text),
    ensures
        text@.len() == one@.len() + other@.len(),
        text@.subrange(0, one@.len() as int) == one@,
        text@.subrange(one@.len() as int, text@.len() as int) == other@,
{
    assert(text@.subrange(0, one@.len() as int) =~= one@);
    assert(text@.subrange(one@.len() as int, text@.len() as int) =~= other@);
}

/// Hexadecimal digits stand for the number that they are written for, as far as
/// there are enough of them.
pub proof fn hexadecimals_are_written_by_fours(number: nat, digits: nat)
    requires
        digits > 0,
    ensures
        hex(number, digits).len() == digits,
        hex(number, digits).drop_last() == hex(number / 16, (digits - 1) as nat),
        number % 16 < 10 ==> hex(number, digits).last() as int == '0' as int + number % 16,
        number % 16 >= 10 ==> hex(number, digits).last() as int == 'A' as int + number % 16 - 10,
    decreases digits,
{
    if digits > 1 {
        hexadecimals_are_written_by_fours(number / 16, (digits - 1) as nat);
    }
    assert(hex(number, digits).drop_last() =~= hex(number / 16, (digits - 1) as nat));
}

/// Digits that stand behind one another are those of a number that is so much
/// smaller: leaving the last of them away divides by sixteen each time.
pub proof fn lemma_hex_digits(number: nat, digits: nat, from: nat, to: nat)
    requires
        from <= to <= digits,
    ensures
        hex(number, digits).len() == digits,
        hex(number, digits).subrange(from as int, to as int) == hex(
            number / (vstd::arithmetic::power::pow(16, (digits - to) as nat) as nat),
            (to - from) as nat,
        ),
    decreases digits,
{
    let power = vstd::arithmetic::power::pow(16, (digits - to) as nat);
    vstd::arithmetic::power::lemma_pow_positive(16, (digits - to) as nat);
    if digits == 0 {
        vstd::arithmetic::power::lemma_pow0(16);
        assert(hex(number, digits).subrange(0, 0) =~= Seq::empty());
    } else if to < digits {
        lemma_hex_digits(number / 16, (digits - 1) as nat, from, to);
        let less = vstd::arithmetic::power::pow(16, (digits - 1 - to) as nat);
        vstd::arithmetic::power::lemma_pow_positive(16, (digits - 1 - to) as nat);
        reveal(vstd::arithmetic::power::pow);
        assert(power == 16 * less);
        vstd::arithmetic::div_mod::lemma_div_denominator(number as int, 16, less);
        assert(hex(number, digits).subrange(from as int, to as int) =~= hex(
            number / 16,
            (digits - 1) as nat,
        ).subrange(from as int, to as int));
    } else {
        vstd::arithmetic::power::lemma_pow0(16);
        assert(number / 1nat == number);
        if from < to {
            lemma_hex_digits(number / 16, (digits - 1) as nat, from, (to - 1) as nat);
            assert((number / 16) / 1nat == number / 16);
            assert(hex(number, digits).subrange(from as int, to as int) =~= hex(
                number / 16,
                (digits - 1) as nat,
            ).subrange(from as int, to - 1).push(hex_char((number % 16) as int)));
        } else {
            lemma_hex_digits(number / 16, (digits - 1) as nat, 0, (digits - 1) as nat);
            assert(hex(number, digits).subrange(from as int, to as int) =~= Seq::empty());
        }
    }
}

/// Digits are ASCII digits and at least one of them, leading zeros and all; each
/// counts ten times as much as the one behind it.
pub proof fn digits_count_by_tens(text: Seq<char>)
    ensures
        are_digits(text) <==> text.len() > 0 && forall|i: int|
            0 <= i < text.len() ==> '0' <= #[trigger] text[i] <= '9',
        are_digits(text) ==> digits_value(text) == 10 * digits_value(text.drop_last())
            + (text.last() as int - '0' as int),
        digits_value(Seq::empty()) == 0,
        text.len() > 0 && text[0] == '0' && are_digits(text) ==> digits_value(text) == digits_value(
            text.subrange(1, text.len() as int),
        ),
{
    if are_digits(text) {
        assert(is_digit(text[text.len() - 1]));
        if text[0] == '0' {
            lemma_leading_zero(text);
        }
    }
    if text.len() > 0 && forall|i: int|
        0 <= i < text.len() ==> '0' <= #[trigger] text[i] <= '9' {
        assert forall|i: int| 0 <= i < text.len() implies is_digit(#[trigger] text[i]) by {}
    }
    if are_digits(text) {
        assert forall|i: int| 0 <= i < text.len() implies '0' <= #[trigger] text[i] <= '9' by {
            assert(is_digit(text[i]));
        }
    }
}

proof fn lemma_leading_zero(text: Seq<char>)
    requires
        text.len() > 0,
        text[0] == '0',
    ensures
        digits_value(text) == digits_value(text.subrange(1, text.len() as int)),
    decreases text.len(),
{
    let rest = text.subrange(1, text.len() as int);
    if text.len() > 1 {
        lemma_leading_zero(text.drop_last());
        assert(rest.drop_last() =~= text.drop_last().subrange(1, text.len() - 1));
        assert(rest.last() == text.last());
    } else {
        assert(rest =~= Seq::empty());
        assert(text.drop_last() =~= Seq::empty());
    }
}

/// A text that starts with neither a sign nor a digit is no number, nor is a sign
/// alone, and a minus makes no unsigned number.
pub proof fn other_texts_are_no_numbers(text: Seq<char>)
    requires
        text.len() > 0,
    ensures
        text[0] != '+' && text[0] != '-' && !('0' <= text[0] <= '9') ==> written_unsigned(
            text,
        ) is None && written_signed(text) is None,
        text[0] == '-' ==> written_unsigned(text) is None,
        text.len() == 1 && (text[0] == '+' || text[0] == '-') ==> written_unsigned(text) is None
            && written_signed(text) is None,
{
    assert(!are_digits(text.subrange(1, text.len() as int)) || text.len() > 1);
    if !('0' <= text[0] <= '9') {
        assert(!is_digit(text[0]));
    }
}

} // verus!
