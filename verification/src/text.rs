//! Operations on text, stated over sequences of characters.

use vstd::prelude::*;
use vstd::string::StringExecFns;

verus! {

/// `String::push` appends one character to the end of the string.
pub assume_specification[ String::push ](s: &mut String, c: char)
    ensures
        final(s)@ == old(s)@.push(c),
;

/// Whether `prefix` begins `text`.
pub open spec fn begins_with(text: Seq<char>, prefix: Seq<char>) -> bool {
    prefix.len() <= text.len() && text.take(prefix.len() as int) == prefix
}

/// Whether `part` stands in `text` at position `at`.
pub open spec fn occurs_at(text: Seq<char>, part: Seq<char>, at: int) -> bool {
    0 <= at && at + part.len() <= text.len() && text.subrange(at, at + part.len()) == part
}

/// Whether `part` stands anywhere in `text`.
pub open spec fn has_part(text: Seq<char>, part: Seq<char>) -> bool {
    exists|at: int| occurs_at(text, part, at)
}

/// `c` with an ASCII capital letter made small.
pub open spec fn small_letter(c: char) -> char {
    if 'A' <= c && c <= 'Z' {
        (c as u8 + 32) as char
    } else {
        c
    }
}

/// `text` with its ASCII capital letters made small.
pub open spec fn ascii_lower(text: Seq<char>) -> Seq<char> {
    Seq::new(text.len(), |i: int| small_letter(text[i]))
}

/// The characters a decimal or hexadecimal digit is written with.
pub open spec fn digit_char(digit: nat) -> char {
    if digit < 10 {
        (digit + 48) as char
    } else {
        (digit + 87) as char
    }
}

/// `number` in decimal, without leading zeros.
pub open spec fn decimal(number: nat) -> Seq<char>
    decreases number,
{
    if number < 10 {
        seq![digit_char(number)]
    } else {
        decimal(number / 10).push(digit_char(number % 10))
    }
}

/// `bytes` in small-letter hexadecimal, two digits a byte.
pub open spec fn hex(bytes: Seq<u8>) -> Seq<char> {
    Seq::new(
        2 * bytes.len(),
        |i: int|
            if i % 2 == 0 {
                digit_char((bytes[i / 2] / 16) as nat)
            } else {
                digit_char((bytes[i / 2] % 16) as nat)
            },
    )
}

/// The views of a list of strings.
pub open spec fn texts(list: Seq<String>) -> Seq<Seq<char>> {
    list.map_values(|s: String| s@)
}

/// The characters of `s`, in order.
pub fn to_chars(s: &str) -> (chars: Vec<char>)
    ensures
        chars@ == s@,
{
    let mut chars: Vec<char> = Vec::new();
    for c in it: s.chars()
        invariant
            it.seq() == s@,
            chars@ == s@.take(it.index() as int),
    {
        chars.push(c);
    }
    assert(s@.take(s@.len() as int) == s@);
    chars
}

/// The string of the characters from `from` up to `to`.
pub fn from_chars(chars: &Vec<char>, from: usize, to: usize) -> (s: String)
    requires
        from <= to <= chars@.len(),
    ensures
        s@ == chars@.subrange(from as int, to as int),
{
    let mut s = String::new();
    for i in from..to
        invariant
            from <= to <= chars@.len(),
            s@ == chars@.subrange(from as int, i as int),
    {
        s.push(chars[i]);
        assert(chars@.subrange(from as int, i + 1) == chars@.subrange(from as int, i as int).push(
            chars@[i as int],
        ));
    }
    s
}

/// `first` followed by `second`.
pub fn joined(first: &str, second: &str) -> (s: String)
    ensures
        s@ == first@ + second@,
{
    let mut s = String::new();
    s.append(first);
    s.append(second);
    assert(s@ =~= first@ + second@);
    s
}

/// Whether `part` stands in `text` at position `at`.
pub fn matches_at(text: &Vec<char>, part: &Vec<char>, at: usize) -> (found: bool)
    ensures
        found == occurs_at(text@, part@, at as int),
{
    if at > text.len() || part.len() > text.len() - at {
        return false;
    }
    let length: usize = text.len();
    for i in 0..part.len()
        invariant
            length == text@.len(),
            at + part@.len() <= length,
            forall|j: int| 0 <= j < i ==> text@[at + j] == part@[j],
    {
        if text[at + i] != part[i] {
            assert(text@.subrange(at as int, at + part@.len())[i as int] != part@[i as int]);
            return false;
        }
    }
    assert(text@.subrange(at as int, at + part@.len()) == part@);
    true
}

/// Whether two texts are the same.
pub fn same_text(a: &str, b: &str) -> (same: bool)
    ensures
        same == (a@ == b@),
{
    let left = to_chars(a);
    let right = to_chars(b);
    if left.len() != right.len() {
        return false;
    }
    let same = matches_at(&left, &right, 0);
    assert(left@.subrange(0, left@.len() as int) == left@);
    same
}

/// Whether `prefix` begins `text`.
pub fn starts_with(text: &str, prefix: &str) -> (found: bool)
    ensures
        found == begins_with(text@, prefix@),
{
    let found = matches_at(&to_chars(text), &to_chars(prefix), 0);
    assert(prefix@.len() <= text@.len() ==> text@.take(prefix@.len() as int) == text@.subrange(
        0,
        prefix@.len() as int,
    ));
    found
}

/// Whether `part` stands anywhere in `text`.
pub fn contains(text: &str, part: &str) -> (found: bool)
    ensures
        found == has_part(text@, part@),
{
    let whole = to_chars(text);
    let sought = to_chars(part);
    if sought.len() > whole.len() {
        return false;
    }
    let last: usize = whole.len() - sought.len();
    let mut at: usize = 0;
    loop
        invariant
            whole@ == text@,
            sought@ == part@,
            last == whole@.len() - sought@.len(),
            at <= last,
            forall|k: int| 0 <= k < at ==> !occurs_at(text@, part@, k),
        decreases last - at,
    {
        if matches_at(&whole, &sought, at) {
            return true;
        }
        if at == last {
            return false;
        }
        at = at + 1;
    }
}

/// `text` with its ASCII capital letters made small.
pub fn to_ascii_lower(text: &str) -> (lower: String)
    ensures
        lower@ == ascii_lower(text@),
{
    let chars = to_chars(text);
    let mut lower = String::new();
    for i in 0..chars.len()
        invariant
            chars@ == text@,
            lower@ == ascii_lower(text@).take(i as int),
    {
        let c: char = chars[i];
        if 'A' <= c && c <= 'Z' {
            lower.push((c as u8 + 32) as char);
        } else {
            lower.push(c);
        }
        assert(ascii_lower(text@).take(i + 1) == ascii_lower(text@).take(i as int).push(
            small_letter(c),
        ));
    }
    assert(ascii_lower(text@).take(text@.len() as int) == ascii_lower(text@));
    lower
}

/// The character of a digit below 16.
fn digit_to_char(digit: u8) -> (c: char)
    requires
        digit < 16,
    ensures
        c == digit_char(digit as nat),
{
    if digit < 10 {
        (digit + 48) as char
    } else {
        (digit + 87) as char
    }
}

/// `number` in decimal.
pub fn to_decimal(number: u64) -> (s: String)
    ensures
        s@ == decimal(number as nat),
    decreases number,
{
    if number < 10 {
        let mut s = String::new();
        s.push(digit_to_char(number as u8));
        assert(s@ == seq![digit_char(number as nat)]);
        s
    } else {
        let mut s = to_decimal(number / 10);
        s.push(digit_to_char((number % 10) as u8));
        s
    }
}

/// `bytes` in hexadecimal.
pub fn to_hex(bytes: &[u8]) -> (s: String)
    ensures
        s@ == hex(bytes@),
{
    let mut s = String::new();
    for i in 0..bytes.len()
        invariant
            s@ == hex(bytes@).take(2 * i),
    {
        let byte: u8 = bytes[i];
        s.push(digit_to_char(byte / 16));
        s.push(digit_to_char(byte % 16));
        assert(hex(bytes@).take(2 * (i + 1)) == hex(bytes@).take(2 * i).push(
            digit_char((byte / 16) as nat),
        ).push(digit_char((byte % 16) as nat)));
    }
    assert(hex(bytes@).take(2 * bytes@.len() as int) == hex(bytes@));
    s
}

/// Different byte strings have different hexadecimal forms.
pub proof fn hex_is_injective(a: Seq<u8>, b: Seq<u8>)
    ensures
        hex(a) == hex(b) ==> a == b,
{
    if hex(a) == hex(b) {
        assert(hex(a).len() == 2 * a.len() && hex(b).len() == 2 * b.len());
        assert forall|i: int| 0 <= i < a.len() implies a[i] == b[i] by {
            assert(hex(a)[2 * i] == hex(b)[2 * i]);
            assert(hex(a)[2 * i + 1] == hex(b)[2 * i + 1]);
            assert(digit_char((a[i] / 16) as nat) == digit_char((b[i] / 16) as nat));
            assert(digit_char((a[i] % 16) as nat) == digit_char((b[i] % 16) as nat));
        }
        assert(a =~= b);
    }
}

/// A text begins with what it is a continuation of, and with nothing else.
pub proof fn beginning_leaves_a_rest(text: Seq<char>, prefix: Seq<char>)
    ensures
        begins_with(text, prefix) <==> exists|rest: Seq<char>| text == #[trigger] (prefix + rest),
{
    if begins_with(text, prefix) {
        let rest = text.skip(prefix.len() as int);
        assert(text =~= prefix + rest);
    }
    if exists|rest: Seq<char>| text == #[trigger] (prefix + rest) {
        let rest = choose|rest: Seq<char>| text == #[trigger] (prefix + rest);
        assert(text.take(prefix.len() as int) =~= prefix);
    }
}

/// A text holds the parts that it can be taken apart around, and no others.
pub proof fn part_stands_between(text: Seq<char>, part: Seq<char>)
    ensures
        has_part(text, part) <==> exists|before: Seq<char>, after: Seq<char>|
            text == #[trigger] (before + part + after),
{
    if has_part(text, part) {
        let at = choose|at: int| occurs_at(text, part, at);
        let before = text.take(at);
        let after = text.skip(at + part.len());
        assert(text =~= before + part + after) by {
            assert forall|i: int| 0 <= i < part.len() implies text[at + i] == part[i] by {
                assert(text.subrange(at, at + part.len())[i] == text[at + i]);
            }
        }
    }
    if exists|before: Seq<char>, after: Seq<char>| text == #[trigger] (before + part + after) {
        let (before, after) = choose|before: Seq<char>, after: Seq<char>|
            text == #[trigger] (before + part + after);
        let at = before.len() as int;
        assert(text.subrange(at, at + part.len()) =~= part);
        assert(occurs_at(text, part, at));
    }
}

/// Lowering changes the ASCII capital letters, each to its small letter, and
/// nothing else; doing it again changes nothing.
pub proof fn lowering_changes_capitals_only(text: Seq<char>)
    ensures
        ascii_lower(text).len() == text.len(),
        forall|i: int|
            0 <= i < text.len() ==> (if 65 <= text[i] as int <= 90 {
                #[trigger] ascii_lower(text)[i] as int == text[i] as int + 32
            } else {
                ascii_lower(text)[i] == text[i]
            }),
        ascii_lower(ascii_lower(text)) == ascii_lower(text),
{
    let lower = ascii_lower(text);
    assert forall|i: int| 0 <= i < text.len() implies (if 65 <= text[i] as int <= 90 {
        #[trigger] lower[i] as int == text[i] as int + 32
    } else {
        lower[i] == text[i]
    }) by {}
    assert(ascii_lower(lower) =~= lower);
}

/// The number that a text of decimal digits denotes.
pub open spec fn number_of(digits: Seq<char>) -> int
    decreases digits.len(),
{
    if digits.len() == 0 {
        0
    } else {
        10 * number_of(digits.drop_last()) + (digits.last() as int - 48)
    }
}

/// The decimal form of a number denotes it, is of digits only, and does not begin
/// with a needless zero.
pub proof fn decimal_reads_back(number: nat)
    ensures
        number_of(decimal(number)) == number,
        decimal(number).len() > 0,
        forall|i: int|
            0 <= i < decimal(number).len() ==> 48 <= #[trigger] decimal(number)[i] as int <= 57,
        decimal(number).len() > 1 ==> decimal(number)[0] != '0',
    decreases number,
{
    let digits = decimal(number);
    if number < 10 {
        assert(digits.drop_last() =~= Seq::<char>::empty());
        assert(digits.last() as int == number + 48);
        assert(number_of(digits.drop_last()) == 0);
    } else {
        let front = decimal(number / 10);
        decimal_reads_back(number / 10);
        assert(digits.drop_last() =~= front);
        assert(digits.last() as int == number % 10 + 48);
        assert forall|i: int| 0 <= i < digits.len() implies 48 <= #[trigger] digits[i] as int
            <= 57 by {
            if i < front.len() {
                assert(digits[i] == front[i]);
            }
        }
        assert(digits[0] == front[0]);
        if front.len() == 1 {
            assert(number / 10 < 10) by {
                if number / 10 >= 10 {
                    assert(decimal(number / 10 / 10).len() > 0) by {
                        decimal_reads_back(number / 10 / 10);
                    }
                }
            }
            assert(front[0] == digit_char(number / 10));
        }
    }
}

/// The value of a hexadecimal digit in small letters, or -1.
pub open spec fn nibble_of(c: char) -> int {
    if 48 <= c as int <= 57 {
        c as int - 48
    } else if 97 <= c as int <= 102 {
        c as int - 87
    } else {
        -1
    }
}

/// The hexadecimal form has two small-letter digits for each byte, which denote
/// it.
pub proof fn hex_reads_back(bytes: Seq<u8>, i: int)
    requires
        0 <= i < bytes.len(),
    ensures
        hex(bytes).len() == 2 * bytes.len(),
        0 <= nibble_of(hex(bytes)[2 * i]),
        0 <= nibble_of(hex(bytes)[2 * i + 1]),
        16 * nibble_of(hex(bytes)[2 * i]) + nibble_of(hex(bytes)[2 * i + 1]) == bytes[i],
{
    let byte = bytes[i];
    let high: nat = (byte / 16) as nat;
    let low: nat = (byte % 16) as nat;
    assert(hex(bytes)[2 * i] == digit_char(high));
    assert(hex(bytes)[2 * i + 1] == digit_char(low));
    lemma_nibble(high);
    lemma_nibble(low);
}

proof fn lemma_nibble(digit: nat)
    requires
        digit < 16,
    ensures
        nibble_of(digit_char(digit)) == digit,
{
}

} // verus!
