//! Text building and scanning: decimal numerals, padding, joining, trimming
//! and comparison of strings, each stated over the characters of its result.
use vstd::prelude::*;

verus! {

/// The character of a decimal digit.
pub open spec fn digit(d: int) -> char {
    (48 + d) as char
}

/// The decimal numeral of `n`, without leading zeros.
pub open spec fn decimal(n: nat) -> Seq<char>
    decreases n,
{
    if n < 10 {
        seq![digit(n as int)]
    } else {
        decimal(n / 10) + seq![digit((n % 10) as int)]
    }
}

/// Ten to the power `d`.
pub open spec fn pow10(d: nat) -> nat
    decreases d,
{
    if d == 0 {
        1
    } else {
        10 * pow10((d - 1) as nat)
    }
}

/// `k` zero characters.
pub open spec fn zeros(k: nat) -> Seq<char> {
    Seq::new(k, |i: int| '0')
}

/// The numeral of `n`, padded with zeros on the left to at least `width`.
pub open spec fn padded(n: nat, width: nat) -> Seq<char> {
    let numeral = decimal(n);
    if numeral.len() < width {
        zeros((width - numeral.len()) as nat) + numeral
    } else {
        numeral
    }
}

/// The first `k` characters of `s`, or all of them where there are fewer.
pub open spec fn at_most(s: Seq<char>, k: nat) -> Seq<char> {
    if s.len() < k {
        s
    } else {
        s.take(k as int)
    }
}

/// The length of `s` without the zeros at its end.
pub open spec fn significant_len(s: Seq<char>) -> nat
    decreases s.len(),
{
    if s.len() == 0 {
        0
    } else if s.last() == '0' {
        significant_len(s.drop_last())
    } else {
        s.len()
    }
}

/// The parts in order, with `sep` between each two.
pub open spec fn joined(parts: Seq<Seq<char>>, sep: Seq<char>) -> Seq<char>
    decreases parts.len(),
{
    if parts.len() == 0 {
        Seq::empty()
    } else if parts.len() == 1 {
        parts[0]
    } else {
        joined(parts.drop_last(), sep) + sep + parts.last()
    }
}

/// The views of a list of strings.
pub open spec fn views(list: Seq<String>) -> Seq<Seq<char>> {
    list.map_values(|s: String| s@)
}

/// The characters that Unicode gives the property `White_Space`.
pub open spec fn is_white_space(c: char) -> bool {
    let u = c as u32;
    ||| 0x9 <= u <= 0xD
    ||| u == 0x20
    ||| u == 0x85
    ||| u == 0xA0
    ||| u == 0x1680
    ||| 0x2000 <= u <= 0x200A
    ||| u == 0x2028
    ||| u == 0x2029
    ||| u == 0x202F
    ||| u == 0x205F
    ||| u == 0x3000
}

/// One text after another.
pub fn two(a: &str, b: &str) -> (r: String)
    ensures
        r@ == a@ + b@,
{
    let mut r = a.to_string();
    r.append(b);
    r
}

/// `s` without the white space at its start.
pub open spec fn trimmed_start(s: Seq<char>) -> Seq<char>
    decreases s.len(),
{
    if s.len() > 0 && is_white_space(s[0]) {
        trimmed_start(s.drop_first())
    } else {
        s
    }
}

/// `s` without the white space at its end.
pub open spec fn trimmed_end(s: Seq<char>) -> Seq<char>
    decreases s.len(),
{
    if s.len() > 0 && is_white_space(s.last()) {
        trimmed_end(s.drop_last())
    } else {
        s
    }
}

/// `s` without the white space at its start and at its end.
pub open spec fn trimmed(s: Seq<char>) -> Seq<char> {
    trimmed_end(trimmed_start(s))
}

/// Whether `part` occurs in `s` at position `at`.
pub open spec fn occurs_at(s: Seq<char>, part: Seq<char>, at: int) -> bool {
    &&& 0 <= at
    &&& at + part.len() <= s.len()
    &&& s.subrange(at, at + part.len()) == part
}

/// Whether `part` occurs somewhere in `s`.
pub open spec fn occurs_in(s: Seq<char>, part: Seq<char>) -> bool {
    exists|at: int| occurs_at(s, part, at)
}

fn digit_text(d: u8) -> (r: &'static str)
    requires
        d < 10,
    ensures
        r@ == seq![digit(d as int)],
{
    proof {
        reveal_strlit("0");
        reveal_strlit("1");
        reveal_strlit("2");
        reveal_strlit("3");
        reveal_strlit("4");
        reveal_strlit("5");
        reveal_strlit("6");
        reveal_strlit("7");
        reveal_strlit("8");
        reveal_strlit("9");
    }
    match d {
        0 => "0",
        1 => "1",
        2 => "2",
        3 => "3",
        4 => "4",
        5 => "5",
        6 => "6",
        7 => "7",
        8 => "8",
        _ => "9",
    }
}

/// The decimal numeral of `n`.
pub fn decimal_text(n: u128) -> (r: String)
    ensures
        r@ == decimal(n as nat),
    decreases n,
{
    if n < 10 {
        digit_text(n as u8).to_string()
    } else {
        let mut s = decimal_text(n / 10);
        s.append(digit_text((n % 10) as u8));
        s
    }
}

/// The numeral of `n`, padded with zeros on the left to at least `width`.
pub fn padded_text(n: u128, width: usize) -> (r: String)
    ensures
        r@ == padded(n as nat, width as nat),
{
    let numeral = decimal_text(n);
    let len: usize = numeral.as_str().unicode_len();
    if len < width {
        let missing: usize = width - len;
        let mut s = String::new();
        let mut i: usize = 0;
        assert(s@ =~= zeros(0));
        while i < missing
            invariant
                i <= missing,
                s@ == zeros(i as nat),
            decreases missing - i,
        {
            proof {
                reveal_strlit("0");
            }
            s.append("0");
            i = i + 1;
            assert(s@ =~= zeros(i as nat));
        }
        s.append(numeral.as_str());
        s
    } else {
        numeral
    }
}

/// The first `k` characters of `s`, or all of them where there are fewer.
pub fn at_most_text(s: &str, k: usize) -> (r: &str)
    ensures
        r@ == at_most(s@, k as nat),
{
    if s.unicode_len() < k {
        s
    } else {
        s.substring_char(0, k)
    }
}

/// The length of `s` without the zeros at its end.
pub fn significant_text_len(s: &str) -> (r: usize)
    ensures
        r == significant_len(s@),
        r <= s@.len(),
{
    let chars = chars_of(s);
    let mut n: usize = chars.len();
    assert(chars@.take(n as int) =~= chars@);
    while n > 0 && chars[n - 1] == '0'
        invariant
            n <= chars@.len(),
            chars@ == s@,
            significant_len(s@) == significant_len(chars@.take(n as int)),
        decreases n,
    {
        assert(chars@.take(n as int).drop_last() =~= chars@.take(n - 1));
        n = n - 1;
    }
    n
}

/// Ten to the power `d`.
pub fn pow10_exec(d: u32) -> (r: u128)
    requires
        d <= 38,
    ensures
        r == pow10(d as nat),
        r > 0,
{
    let mut r: u128 = 1;
    let mut i: u32 = 0;
    while i < d
        invariant
            i <= d <= 38,
            r == pow10(i as nat),
            r > 0,
        decreases d - i,
    {
        proof {
            lemma_pow10_monotone((i + 1) as nat, 38);
            lemma_pow10_bound();
        }
        r = r * 10;
        i = i + 1;
    }
    r
}

pub proof fn lemma_pow10_bound()
    ensures
        pow10(38) == 100_000_000_000_000_000_000_000_000_000_000_000_000,
{
    reveal_with_fuel(pow10, 39);
}

pub proof fn lemma_pow10_monotone(a: nat, b: nat)
    requires
        a <= b,
    ensures
        0 < pow10(a) <= pow10(b),
    decreases b,
{
    if a < b {
        lemma_pow10_monotone(a, (b - 1) as nat);
    } else if a > 0 {
        lemma_pow10_monotone((a - 1) as nat, (a - 1) as nat);
    }
}

/// The characters of `s`.
pub fn chars_of(s: &str) -> (r: Vec<char>)
    ensures
        r@ == s@,
{
    let mut r: Vec<char> = Vec::new();
    for c in it: s.chars()
        invariant
            r@ == it.seq().take(it.index()),
            it.seq() == s@,
    {
        r.push(c);
    }
    r
}

/// Whether two strings hold the same characters.
pub fn same_text(a: &str, b: &str) -> (r: bool)
    ensures
        r == (a@ == b@),
{
    let x = a.as_bytes();
    let y = b.as_bytes();
    proof {
        vstd::utf8::encode_utf8_decode_utf8(a@);
        vstd::utf8::encode_utf8_decode_utf8(b@);
    }
    if x.len() != y.len() {
        return false;
    }
    let mut i: usize = 0;
    while i < x.len()
        invariant
            i <= x@.len(),
            x@.len() == y@.len(),
            x@ == vstd::utf8::encode_utf8(a@),
            y@ == vstd::utf8::encode_utf8(b@),
            forall|j: int| 0 <= j < i ==> x@[j] == y@[j],
        decreases x@.len() - i,
    {
        if x[i] != y[i] {
            assert(x@[i as int] != y@[i as int]);
            return false;
        }
        i = i + 1;
    }
    assert(x@ =~= y@);
    true
}

/// The parts in order, with `sep` between each two.
pub fn join(parts: &Vec<String>, sep: &str) -> (r: String)
    ensures
        r@ == joined(views(parts@), sep@),
{
    let mut r = String::new();
    let mut i: usize = 0;
    let ghost all = views(parts@);
    assert(r@ =~= joined(all.take(0), sep@));
    while i < parts.len()
        invariant
            i <= parts@.len(),
            all == views(parts@),
            r@ == joined(all.take(i as int), sep@),
        decreases parts@.len() - i,
    {
        if i > 0 {
            r.append(sep);
        }
        r.append(parts[i].as_str());
        proof {
            assert(all.take(i + 1).drop_last() =~= all.take(i as int));
            assert(all.take(i + 1).last() == parts@[i as int]@);
            if i == 0 {
                assert(r@ =~= all.take(1)[0]);
            }
        }
        i = i + 1;
    }
    assert(all.take(i as int) =~= all);
    r
}

/// Whether `c` is white space.
pub fn is_white_space_exec(c: char) -> (r: bool)
    ensures
        r == is_white_space(c),
{
    let u: u32 = c as u32;
    (0x9 <= u && u <= 0xD) || u == 0x20 || u == 0x85 || u == 0xA0 || u == 0x1680 || (0x2000 <= u && u
        <= 0x200A) || u == 0x2028 || u == 0x2029 || u == 0x202F || u == 0x205F || u == 0x3000
}

/// `s` without the white space at its start and at its end.
pub fn trim(s: &str) -> (r: &str)
    ensures
        r@ == trimmed(s@),
{
    let chars = chars_of(s);
    let mut from: usize = 0;
    assert(chars@.skip(0) =~= chars@);
    while from < chars.len() && is_white_space_exec(chars[from])
        invariant
            from <= chars@.len(),
            trimmed_start(chars@) == trimmed_start(chars@.skip(from as int)),
        decreases chars@.len() - from,
    {
        assert(chars@.skip(from as int).drop_first() =~= chars@.skip(from + 1));
        from = from + 1;
    }
    let ghost tail = chars@.skip(from as int);
    assert(trimmed_start(chars@) == tail);
    let mut to: usize = chars.len();
    assert(chars@.subrange(from as int, to as int) =~= tail);
    while to > from && is_white_space_exec(chars[to - 1])
        invariant
            from <= to <= chars@.len(),
            trimmed_end(tail) == trimmed_end(chars@.subrange(from as int, to as int)),
        decreases to,
    {
        assert(chars@.subrange(from as int, to as int).drop_last() =~= chars@.subrange(
            from as int,
            to - 1,
        ));
        to = to - 1;
    }
    s.substring_char(from, to)
}

/// Whether `s` holds the character `c`.
pub fn holds_char(s: &str, c: char) -> (r: bool)
    ensures
        r == s@.contains(c),
{
    let chars = chars_of(s);
    let mut i: usize = 0;
    while i < chars.len()
        invariant
            i <= chars@.len(),
            chars@ == s@,
            forall|j: int| 0 <= j < i ==> chars@[j] != c,
        decreases chars@.len() - i,
    {
        if chars[i] == c {
            assert(s@[i as int] == c);
            return true;
        }
        i = i + 1;
    }
    false
}

/// Whether `s` starts with `prefix`.
pub fn has_prefix(s: &str, prefix: &str) -> (r: bool)
    ensures
        r == occurs_at(s@, prefix@, 0),
{
    let n: usize = prefix.unicode_len();
    if s.unicode_len() < n {
        return false;
    }
    same_text(s.substring_char(0, n), prefix)
}

/// Whether `part` occurs somewhere in `s`.
pub fn holds_text(s: &str, part: &str) -> (r: bool)
    ensures
        r == occurs_in(s@, part@),
{
    let n: usize = part.unicode_len();
    let len: usize = s.unicode_len();
    if len < n {
        return false;
    }
    if n == 0 {
        assert(occurs_at(s@, part@, 0)) by {
            assert(s@.subrange(0, 0) =~= part@);
        }
        return true;
    }
    let mut i: usize = 0;
    while i <= len - n
        invariant
            n == part@.len(),
            len == s@.len(),
            0 < n <= len,
            i <= len - n + 1,
            forall|at: int| 0 <= at < i ==> !occurs_at(s@, part@, at),
        decreases len - n + 1 - i,
    {
        if same_text(s.substring_char(i, i + n), part) {
            assert(occurs_at(s@, part@, i as int));
            return true;
        }
        assert(!occurs_at(s@, part@, i as int));
        i = i + 1;
    }
    false
}

/// A text that was trimmed has nothing to trim.
pub proof fn lemma_trimmed_twice(s: Seq<char>)
    ensures
        trimmed(trimmed(s)) == trimmed(s),
{
    lemma_trimmed_start(s);
    let a = trimmed_start(s);
    lemma_trimmed_end(a);
    let b = trimmed_end(a);
    if b.len() > 0 {
        assert(trimmed_start(b) == b);
        assert(trimmed_end(b) == b);
    }
}

proof fn lemma_trimmed_start(s: Seq<char>)
    ensures
        trimmed_start(s).len() > 0 ==> !is_white_space(trimmed_start(s)[0]),
    decreases s.len(),
{
    if s.len() > 0 && is_white_space(s[0]) {
        lemma_trimmed_start(s.drop_first());
    }
}

proof fn lemma_trimmed_end(s: Seq<char>)
    ensures
        trimmed_end(s).len() > 0 ==> trimmed_end(s)[0] == s[0] && !is_white_space(
            trimmed_end(s).last(),
        ),
    decreases s.len(),
{
    if s.len() > 0 && is_white_space(s.last()) {
        lemma_trimmed_end(s.drop_last());
    }
}

/// What `str::to_lowercase` of the standard library returns.
pub uninterp spec fn lowercase(s: Seq<char>) -> Seq<char>;

/// Calls `str::to_lowercase` of the standard library. Its result is named
/// `lowercase`: the Unicode case tables behind it are not written out here.
#[verifier::external_body]
pub(crate) fn to_lowercase(s: &str) -> (r: String)
    ensures
        r@ == lowercase(s@),
{
    s.to_lowercase()
}

/// The number that a text of decimal digits is read as.
pub open spec fn number_of(digits: Seq<char>) -> int
    decreases digits.len(),
{
    if digits.len() == 0 {
        0
    } else {
        10 * number_of(digits.drop_last()) + (digits.last() as int - '0' as int)
    }
}

/// A numeral is read back as its number, holds digits alone, and starts with a zero
/// only where the number is zero.
pub proof fn law_numerals_read_back(n: nat)
    ensures
        number_of(decimal(n)) == n,
        decimal(n).len() > 0,
        forall|i: int| 0 <= i < decimal(n).len() ==> '0' <= #[trigger] decimal(n)[i] <= '9',
        decimal(n)[0] == '0' ==> n == 0 && decimal(n).len() == 1,
    decreases n,
{
    let s = decimal(n);
    if n < 10 {
        assert(s.drop_last() =~= Seq::empty());
        assert(number_of(s.drop_last()) == 0);
    } else {
        law_numerals_read_back(n / 10);
        let rest = decimal(n / 10);
        assert(s.drop_last() =~= rest);
        assert forall|i: int| 0 <= i < s.len() implies '0' <= #[trigger] s[i] <= '9' by {
            if i < rest.len() {
                assert(s[i] == rest[i]);
            }
        }
        assert(s[0] == rest[0]);
    }
}

proof fn lemma_zeros_in_front(k: nat, s: Seq<char>)
    ensures
        number_of(zeros(k) + s) == number_of(s),
    decreases s.len(), k,
{
    if s.len() > 0 {
        lemma_zeros_in_front(k, s.drop_last());
        assert((zeros(k) + s).drop_last() =~= zeros(k) + s.drop_last());
    } else if k > 0 {
        lemma_zeros_in_front((k - 1) as nat, s);
        assert((zeros(k) + s).drop_last() =~= zeros((k - 1) as nat) + s);
    } else {
        assert(zeros(k) + s =~= s);
    }
}

proof fn lemma_numeral_length(n: nat, width: nat)
    requires
        width > 0,
    ensures
        n < pow10(width) <==> decimal(n).len() <= width,
    decreases width,
{
    if n >= 10 {
        if width > 1 {
            lemma_numeral_length(n / 10, (width - 1) as nat);
        } else {
            law_numerals_read_back(n / 10);
            assert(pow10(1) == 10 * pow10(0));
        }
    } else {
        lemma_pow10_monotone(1, width);
        assert(pow10(1) == 10 * pow10(0));
    }
}

/// A padded numeral is read back as its number, holds digits alone, and is as long
/// as asked for, or as long as the number needs.
pub proof fn law_padded_numerals_read_back(n: nat, width: nat)
    ensures
        number_of(padded(n, width)) == n,
        forall|i: int|
            0 <= i < padded(n, width).len() ==> '0' <= #[trigger] padded(n, width)[i] <= '9',
        padded(n, width).len() >= width,
        width > 0 && n < pow10(width) ==> padded(n, width).len() == width,
        padded(n, width).len() > width ==> padded(n, width)[0] != '0' || n == 0,
{
    law_numerals_read_back(n);
    let numeral = decimal(n);
    if numeral.len() < width {
        lemma_zeros_in_front((width - numeral.len()) as nat, numeral);
    }
    if width > 0 {
        lemma_numeral_length(n, width);
    }
}

/// Powers of ten: of one it is ten, and that of a sum is the product.
pub proof fn law_powers_of_ten(a: nat, b: nat)
    ensures
        pow10(1) == 10,
        pow10(a + b) == pow10(a) * pow10(b),
    decreases a,
{
    assert(pow10(1) == 10 * pow10(0));
    if a > 0 {
        law_powers_of_ten((a - 1) as nat, b);
        assert((a + b - 1) as nat == (a - 1) as nat + b);
        let x = pow10((a - 1) as nat) as int;
        let y = pow10(b) as int;
        assert(10 * (x * y) == (10 * x) * y) by (nonlinear_arith);
    } else {
        let y = pow10(b) as int;
        assert(1 * y == y) by (nonlinear_arith);
    }
}

/// A text that is cut is a beginning of itself, and no longer than asked for; it is
/// cut only where it is longer.
pub proof fn law_cut_texts_are_beginnings(s: Seq<char>, k: nat)
    ensures
        at_most(s, k).is_prefix_of(s),
        at_most(s, k).len() <= k,
        s.len() <= k ==> at_most(s, k) == s,
        s.len() > k ==> at_most(s, k).len() == k,
{
}

/// Behind the significant characters there are only zeros, and the last of them is
/// none.
pub proof fn law_only_zeros_are_insignificant(s: Seq<char>)
    ensures
        significant_len(s) <= s.len(),
        forall|i: int| significant_len(s) <= i < s.len() ==> #[trigger] s[i] == '0',
        significant_len(s) > 0 ==> s[significant_len(s) - 1] != '0',
    decreases s.len(),
{
    if s.len() > 0 && s.last() == '0' {
        let rest = s.drop_last();
        law_only_zeros_are_insignificant(rest);
        assert(forall|i: int| 0 <= i < rest.len() ==> rest[i] == s[i]);
    }
}

/// Nothing joined is nothing, one part joined is the part, and two lists of parts
/// are joined by the separator.
pub proof fn law_joining_lists(a: Seq<Seq<char>>, b: Seq<Seq<char>>, sep: Seq<char>, part: Seq<char>)
    ensures
        joined(Seq::empty(), sep).len() == 0,
        joined(seq![part], sep) == part,
        a.len() > 0 && b.len() > 0 ==> joined(a + b, sep) == joined(a, sep) + sep + joined(b, sep),
    decreases b.len(),
{
    if a.len() > 0 && b.len() > 0 {
        let all = a + b;
        assert(all.last() == b.last());
        assert(all.drop_last() =~= a + b.drop_last());
        if b.len() == 1 {
            assert(a + b.drop_last() =~= a);
            assert(joined(b, sep) == b[0]);
        } else {
            law_joining_lists(a, b.drop_last(), sep, part);
            assert(joined(all, sep) =~= joined(a, sep) + sep + joined(b, sep));
        }
    }
}

proof fn lemma_trimmed_start_position(s: Seq<char>) -> (from: int)
    ensures
        0 <= from <= s.len(),
        trimmed_start(s) == s.skip(from),
        forall|i: int| 0 <= i < from ==> is_white_space(#[trigger] s[i]),
    decreases s.len(),
{
    if s.len() > 0 && is_white_space(s[0]) {
        let rest = s.drop_first();
        let k = lemma_trimmed_start_position(rest);
        assert(s.skip(k + 1) =~= rest.skip(k));
        assert forall|i: int| 0 <= i < k + 1 implies is_white_space(#[trigger] s[i]) by {
            if i > 0 {
                assert(s[i] == rest[i - 1]);
            }
        }
        k + 1
    } else {
        assert(s.skip(0) =~= s);
        0
    }
}

proof fn lemma_trimmed_end_position(s: Seq<char>) -> (to: int)
    ensures
        0 <= to <= s.len(),
        trimmed_end(s) == s.take(to),
        forall|i: int| to <= i < s.len() ==> is_white_space(#[trigger] s[i]),
    decreases s.len(),
{
    if s.len() > 0 && is_white_space(s.last()) {
        let rest = s.drop_last();
        let k = lemma_trimmed_end_position(rest);
        assert(s.take(k) =~= rest.take(k));
        assert forall|i: int| k <= i < s.len() implies is_white_space(#[trigger] s[i]) by {
            if i < rest.len() {
                assert(s[i] == rest[i]);
            }
        }
        k
    } else {
        assert(s.take(s.len() as int) =~= s);
        s.len() as int
    }
}

/// The characters that count as white space, by their code points.
pub proof fn law_white_space(c: char)
    ensures
        is_white_space(c) <==> seq![
            9u32, 10, 11, 12, 13, 32, 133, 160, 5760, 8192, 8193, 8194, 8195, 8196, 8197, 8198,
            8199, 8200, 8201, 8202, 8232, 8233, 8239, 8287, 12288,
        ].contains(c as u32),
{
    let all = seq![
        9u32, 10, 11, 12, 13, 32, 133, 160, 5760, 8192, 8193, 8194, 8195, 8196, 8197, 8198, 8199,
        8200, 8201, 8202, 8232, 8233, 8239, 8287, 12288,
    ];
    let u = c as u32;
    if is_white_space(c) {
        let at: int = if u <= 13 {
            u - 9
        } else if u == 32 {
            5
        } else if u == 133 {
            6
        } else if u == 160 {
            7
        } else if u == 5760 {
            8
        } else if u <= 8202 {
            9 + (u - 8192)
        } else if u == 8232 {
            20
        } else if u == 8233 {
            21
        } else if u == 8239 {
            22
        } else if u == 8287 {
            23
        } else {
            24
        };
        assert(all[at] == u);
    }
}

/// Trimming leaves out white space at the start and at the end, and nothing else,
/// until what is left starts and ends with another character.
pub proof fn law_trimming_takes_white_space_at_the_ends(s: Seq<char>)
    ensures
        exists|from: int, to: int|
            #![trigger s.subrange(from, to)]
            0 <= from <= to <= s.len() && trimmed(s) == s.subrange(from, to) && (forall|i: int|
                0 <= i < from || to <= i < s.len() ==> is_white_space(#[trigger] s[i])),
        trimmed(s).len() > 0 ==> !is_white_space(trimmed(s)[0]) && !is_white_space(
            trimmed(s).last(),
        ),
{
    let from = lemma_trimmed_start_position(s);
    let tail = trimmed_start(s);
    let k = lemma_trimmed_end_position(tail);
    assert(trimmed(s) =~= s.subrange(from, from + k));
    assert forall|i: int| 0 <= i < from || from + k <= i < s.len() implies is_white_space(
        #[trigger] s[i],
    ) by {
        if i >= from {
            assert(s[i] == tail[i - from]);
        }
    }
    lemma_trimmed_start(s);
    lemma_trimmed_end(tail);
}

/// A text occurs in another exactly where the other is made of it, something before
/// it and something behind it, and at the position of its first character.
pub proof fn law_occurrences(s: Seq<char>, part: Seq<char>, at: int)
    ensures
        occurs_at(s, part, at) <==> exists|before: Seq<char>, after: Seq<char>|
            before.len() == at && s == #[trigger] (before + part + after),
        occurs_in(s, part) <==> exists|before: Seq<char>, after: Seq<char>|
            s == #[trigger] (before + part + after),
{
    if occurs_at(s, part, at) {
        assert(s =~= s.take(at) + part + s.skip(at + part.len()));
    }
    if exists|before: Seq<char>, after: Seq<char>|
        before.len() == at && s == #[trigger] (before + part + after) {
        let (before, after) = choose|before: Seq<char>, after: Seq<char>|
            before.len() == at && s == #[trigger] (before + part + after);
        assert(s.subrange(at, at + part.len()) =~= part);
    }
    if occurs_in(s, part) {
        let k = choose|k: int| occurs_at(s, part, k);
        assert(s =~= s.take(k) + part + s.skip(k + part.len()));
    }
    if exists|before: Seq<char>, after: Seq<char>| s == #[trigger] (before + part + after) {
        let (before, after) = choose|before: Seq<char>, after: Seq<char>|
            s == #[trigger] (before + part + after);
        let k = before.len() as int;
        assert(s.subrange(k, k + part.len()) =~= part);
        assert(occurs_at(s, part, k));
    }
}

/// The digits at the front of a text count ten times as often for each one behind
/// them.
pub proof fn lemma_number_split(s: Seq<char>, k: int)
    requires
        0 <= k <= s.len(),
        forall|i: int| 0 <= i < s.len() ==> '0' <= #[trigger] s[i] <= '9',
    ensures
        number_of(s) == number_of(s.take(k)) * pow10((s.len() - k) as nat) + number_of(s.skip(k)),
        0 <= number_of(s.skip(k)) < pow10((s.len() - k) as nat),
    decreases s.len(),
{
    let front = number_of(s.take(k));
    if k == s.len() {
        assert(s.take(k) =~= s);
        assert(s.skip(k) =~= Seq::empty());
        assert(number_of(s.skip(k)) == 0);
        assert(front * 1 == front) by (nonlinear_arith);
    } else {
        let rest = s.drop_last();
        assert forall|i: int| 0 <= i < rest.len() implies '0' <= #[trigger] rest[i] <= '9' by {
            assert(rest[i] == s[i]);
        }
        lemma_number_split(rest, k);
        assert(rest.take(k) =~= s.take(k));
        assert(rest.skip(k) =~= s.skip(k).drop_last());
        assert(s.skip(k).last() == s.last());
        assert(s[s.len() - 1] == s.last());
        let p = pow10((rest.len() - k) as nat) as int;
        assert(pow10((s.len() - k) as nat) == 10 * p);
        assert(10 * (front * p) == front * (10 * p)) by (nonlinear_arith);
    }
}

/// The views of strings are as many as they are, each at its place.
pub proof fn law_views_of_strings(list: Seq<String>)
    ensures
        views(list).len() == list.len(),
        forall|i: int| 0 <= i < list.len() ==> #[trigger] views(list)[i] == list[i]@,
{
}

} // verus!
