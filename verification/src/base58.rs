//! Numbers that are written in base 58, and which of them a decoder with a fixed
//! number of bytes takes.
use crate::bytes::{lemma_highest_byte, lemma_little_endian_bound, little_endian, room};
use crate::text::chars_of;
use vstd::prelude::*;

verus! {

/// The number of bytes that the decoder has room for.
pub const BASE58_ROOM: usize = 132;

/// Whether a character is a base 58 digit: a letter or a digit, but none of `0`,
/// `O`, `I` and `l`.
pub open spec fn is_base58(c: char) -> bool {
    ('1' <= c <= '9' || 'A' <= c <= 'Z' || 'a' <= c <= 'z') && c != 'O' && c != 'I' && c != 'l'
}

/// What a base 58 digit stands for: its place among the digits.
pub open spec fn base58_digit(c: char) -> nat {
    if c <= '9' {
        (c as int - '1' as int) as nat
    } else if c <= 'H' {
        (9 + (c as int - 'A' as int)) as nat
    } else if c <= 'N' {
        (17 + (c as int - 'J' as int)) as nat
    } else if c <= 'Z' {
        (22 + (c as int - 'P' as int)) as nat
    } else if c <= 'k' {
        (33 + (c as int - 'a' as int)) as nat
    } else {
        (44 + (c as int - 'm' as int)) as nat
    }
}

/// The number that base 58 digits stand for, the highest digit first.
pub open spec fn base58_number(digits: Seq<char>) -> nat
    decreases digits.len(),
{
    if digits.len() == 0 {
        0
    } else {
        58 * base58_number(digits.drop_last()) + base58_digit(digits.last())
    }
}

/// Whether all characters are base 58 digits.
pub open spec fn all_base58(text: Seq<char>) -> bool {
    forall|i: int| 0 <= i < text.len() ==> is_base58(#[trigger] text[i])
}

/// Whether a text may be handed to the decoder. It adds a zero byte for each
/// leading digit `1`, and has no room for them where the digits are more than the
/// bytes. Before that it turns down a text with a character that is no digit, and
/// a number that it has no room for.
pub open spec fn is_decodable(text: Seq<char>) -> bool {
    ||| text.len() <= BASE58_ROOM
    ||| text[0] != '1'
    ||| !all_base58(text)
    ||| base58_number(text) >= room(BASE58_ROOM as nat)
}

fn digit_of(c: char) -> (r: Option<u8>)
    ensures
        r is Some <==> is_base58(c),
        r is Some ==> r->0 as nat == base58_digit(c) && r->0 < 58,
{
    let u: u32 = c as u32;
    if 0x31 <= u && u <= 0x39 {
        Some((u - 0x31) as u8)
    } else if 0x41 <= u && u < 0x49 {
        Some((9 + (u - 0x41)) as u8)
    } else if 0x49 < u && u < 0x4F {
        Some((17 + (u - 0x4A)) as u8)
    } else if 0x4F < u && u <= 0x5A {
        Some((22 + (u - 0x50)) as u8)
    } else if 0x61 <= u && u < 0x6C {
        Some((33 + (u - 0x61)) as u8)
    } else if 0x6C < u && u <= 0x7A {
        Some((44 + (u - 0x6D)) as u8)
    } else {
        None
    }
}

/// A number of which a part at the start has no room has none itself.
proof fn lemma_number_grows(digits: Seq<char>, n: int)
    requires
        0 <= n <= digits.len(),
    ensures
        base58_number(digits.take(n)) <= base58_number(digits),
    decreases digits.len(),
{
    if n < digits.len() {
        lemma_number_grows(digits.drop_last(), n);
        assert(digits.drop_last().take(n) =~= digits.take(n));
    } else {
        assert(digits.take(n) =~= digits);
    }
}

/// Puts a digit behind the number that the bytes hold, and tells whether they have
/// room for the result.
fn push_digit(bytes: &mut Vec<u8>, digit: u8) -> (r: bool)
    requires
        digit < 58,
    ensures
        final(bytes)@.len() == old(bytes)@.len(),
        r == (58 * little_endian(old(bytes)@) + digit < room(old(bytes)@.len())),
        r ==> little_endian(final(bytes)@) == 58 * little_endian(old(bytes)@) + digit,
{
    let ghost before = bytes@;
    let n: usize = bytes.len();
    let mut carry: u32 = digit as u32;
    let mut j: usize = 0;
    assert(little_endian(before.take(0)) == 0);
    assert(little_endian(bytes@.take(0)) == 0);
    proof {
        let one = room(0) as int;
        assert(carry * one == carry) by (nonlinear_arith)
            requires
                one == 1,
        ;
    }
    while j < n
        invariant
            j <= n,
            bytes@.len() == n,
            before.len() == n,
            carry < 58,
            forall|k: int| j <= k < n ==> bytes@[k] == before[k],
            little_endian(bytes@.take(j as int)) + carry * room(j as nat) == 58 * little_endian(
                before.take(j as int),
            ) + digit,
        decreases n - j,
    {
        let ghost old_low = bytes@.take(j as int);
        let ghost old_carry = carry as int;
        let t: u32 = bytes[j] as u32 * 58 + carry;
        let low: u8 = (t % 256) as u8;
        bytes[j] = low;
        carry = t / 256;
        proof {
            let a = before.take(j + 1);
            let b = bytes@.take(j + 1);
            lemma_highest_byte(a);
            lemma_highest_byte(b);
            assert(a.drop_last() =~= before.take(j as int));
            assert(b.drop_last() =~= old_low);
            assert(a.last() == before[j as int]);
            assert(b.last() == low);
            let r = room(j as nat) as int;
            assert(room((j + 1) as nat) == 256 * r);
            let x = before[j as int] as int;
            let c = carry as int;
            let l = low as int;
            assert(l + 256 * c == 58 * x + old_carry);
            assert(l * r + c * (256 * r) == 58 * (x * r) + old_carry * r) by (nonlinear_arith)
                requires
                    l + 256 * c == 58 * x + old_carry,
            ;
        }
        j = j + 1;
    }
    proof {
        assert(before.take(n as int) =~= before);
        assert(bytes@.take(n as int) =~= bytes@);
        lemma_little_endian_bound(bytes@);
        let r = room(n as nat) as int;
        let c = carry as int;
        if c > 0 {
            assert(c * r >= r) by (nonlinear_arith)
                requires
                    c >= 1,
                    r >= 0,
            ;
        }
    }
    carry == 0
}

/// The zeros that a number begins with.
fn zero_bytes(n: usize) -> (r: Vec<u8>)
    ensures
        r@.len() == n,
        little_endian(r@) == 0,
{
    let mut r: Vec<u8> = Vec::new();
    while r.len() < n
        invariant
            r@.len() <= n,
            little_endian(r@) == 0,
        decreases n - r@.len(),
    {
        let ghost before = r@;
        r.push(0);
        proof {
            lemma_highest_byte(r@);
            assert(r@.drop_last() =~= before);
            let others = room(before.len()) as int;
            assert(0 * others == 0) by (nonlinear_arith);
        }
    }
    r
}

/// Whether a text may be handed to the decoder.
pub fn may_be_decoded(text: &str) -> (r: bool)
    ensures
        r == is_decodable(text@),
{
    let chars = chars_of(text);
    if chars.len() <= BASE58_ROOM || chars[0] != '1' {
        return true;
    }
    let mut number = zero_bytes(BASE58_ROOM);
    let mut fits = true;
    let mut i: usize = 0;
    while i < chars.len()
        invariant
            i <= chars@.len(),
            chars@ == text@,
            number@.len() == BASE58_ROOM,
            forall|j: int| 0 <= j < i ==> is_base58(#[trigger] chars@[j]),
            fits ==> little_endian(number@) == base58_number(chars@.take(i as int)),
            !fits ==> base58_number(chars@.take(i as int)) >= room(BASE58_ROOM as nat),
        decreases chars@.len() - i,
    {
        proof {
            assert(chars@.take(i + 1).drop_last() =~= chars@.take(i as int));
            assert(chars@.take(i + 1).last() == chars@[i as int]);
            lemma_number_grows(chars@.take(i + 1), i as int);
            assert(chars@.take(i + 1).take(i as int) =~= chars@.take(i as int));
        }
        match digit_of(chars[i]) {
            None => {
                assert(!is_base58(text@[i as int]));
                return true;
            },
            Some(digit) => {
                if fits {
                    fits = push_digit(&mut number, digit);
                }
            },
        }
        i = i + 1;
    }
    proof {
        assert(chars@.take(i as int) =~= text@);
        lemma_little_endian_bound(number@);
    }
    !fits
}

/// The base 58 digits are the characters of the alphabet, each of which stands for
/// its place in it.
pub proof fn law_digits_are_the_alphabet(c: char)
    ensures
        ({
            let alphabet = "123456789ABCDEFGHJKLMNPQRSTUVWXYZabcdefghijkmnopqrstuvwxyz"@;
            &&& alphabet.len() == 58
            &&& is_base58(c) <==> alphabet.contains(c)
            &&& is_base58(c) ==> base58_digit(c) < 58 && alphabet[base58_digit(c) as int] == c
        }),
{
    reveal_strlit("123456789ABCDEFGHJKLMNPQRSTUVWXYZabcdefghijkmnopqrstuvwxyz");
    let alphabet = "123456789ABCDEFGHJKLMNPQRSTUVWXYZabcdefghijkmnopqrstuvwxyz"@;
    if is_base58(c) {
        assert(alphabet[base58_digit(c) as int] == c);
    }
}

/// A digit alone is the number that it stands for, and digits behind others make
/// the others count 58 times as often each.
pub proof fn law_earlier_digits_count_more(digits: Seq<char>, c: char)
    ensures
        base58_number(seq![c]) == base58_digit(c),
        base58_number(digits.push(c)) == 58 * base58_number(digits) + base58_number(seq![c]),
        base58_number(Seq::empty()) == 0,
{
    assert(seq![c].drop_last() =~= Seq::empty());
    assert(base58_number(seq![c].drop_last()) == 0);
    assert(digits.push(c).drop_last() =~= digits);
}

/// A text is kept from the decoder only where it is longer than 132 digits, starts
/// with the digit for zero, holds digits alone, and stands for a number below 256
/// to the power of 132.
pub proof fn law_texts_kept_from_the_decoder(text: Seq<char>)
    ensures
        !is_decodable(text) <==> {
            &&& text.len() > 132
            &&& text[0] == '1'
            &&& forall|i: int| 0 <= i < text.len() ==> is_base58(#[trigger] text[i])
            &&& base58_number(text) < room(132)
        },
{
}

} // verus!
