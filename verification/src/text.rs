//! Text as sequences of characters: trimming, comparing, and the decimal notation.

use vstd::prelude::*;
use vstd::string::*;

verus! {

/// The characters that count as white space (the Unicode property `White_Space`).
pub open spec fn is_space(c: char) -> bool {
    let n = c as u32;
    ||| 0x9 <= n <= 0xD
    ||| n == 0x20
    ||| n == 0x85
    ||| n == 0xA0
    ||| n == 0x1680
    ||| 0x2000 <= n <= 0x200A
    ||| n == 0x2028
    ||| n == 0x2029
    ||| n == 0x202F
    ||| n == 0x205F
    ||| n == 0x3000
}

/// `s` without the white space it starts with.
pub open spec fn trim_start(s: Seq<char>) -> Seq<char>
    decreases s.len(),
{
    if s.len() > 0 && is_space(s[0]) {
        trim_start(s.drop_first())
    } else {
        s
    }
}

/// `s` without the white space it ends with.
pub open spec fn trim_end(s: Seq<char>) -> Seq<char>
    decreases s.len(),
{
    if s.len() > 0 && is_space(s.last()) {
        trim_end(s.drop_last())
    } else {
        s
    }
}

/// `s` without the white space at both ends.
pub open spec fn trimmed(s: Seq<char>) -> Seq<char> {
    trim_end(trim_start(s))
}

/// Whether `c` is white space.
pub fn space(c: char) -> (r: bool)
    ensures
        r == is_space(c),
{
    let n: u32 = c as u32;
    (0x9 <= n && n <= 0xD) || n == 0x20 || n == 0x85 || n == 0xA0 || n == 0x1680 || (0x2000 <= n
        && n <= 0x200A) || n == 0x2028 || n == 0x2029 || n == 0x202F || n == 0x205F || n == 0x3000
}

/// The part of `s` between its leading and its trailing white space.
pub fn trim(s: &str) -> (r: &str)
    ensures
        r@ == trimmed(s@),
{
    let n: usize = s.unicode_len();
    let mut i: usize = 0;
    assert(s@.subrange(0, n as int) =~= s@);
    while i < n && space(s.get_char(i))
        invariant
            i <= n == s@.len(),
            trim_start(s@) == trim_start(s@.subrange(i as int, n as int)),
        decreases n - i,
    {
        assert(s@.subrange(i as int, n as int).drop_first() =~= s@.subrange(i + 1, n as int));
        i = i + 1;
    }
    let mut j: usize = n;
    assert(trim_start(s@) == s@.subrange(i as int, n as int)) by {
        if i < n {
            assert(s@.subrange(i as int, n as int)[0] == s@[i as int]);
        }
    }
    while j > i && space(s.get_char(j - 1))
        invariant
            i <= j <= n == s@.len(),
            trimmed(s@) == trim_end(s@.subrange(i as int, j as int)),
        decreases j,
    {
        assert(s@.subrange(i as int, j as int).drop_last() =~= s@.subrange(i as int, j - 1));
        j = j - 1;
    }
    proof {
        if j > i {
            assert(s@.subrange(i as int, j as int).last() == s@[j - 1]);
        }
    }
    s.substring_char(i, j)
}

/// Whether two texts hold the same characters.
pub fn same(a: &str, b: &str) -> (r: bool)
    ensures
        r == (a@ == b@),
{
    let n: usize = a.unicode_len();
    if b.unicode_len() != n {
        return false;
    }
    let mut i: usize = 0;
    while i < n
        invariant
            i <= n == a@.len() == b@.len(),
            forall|k: int| 0 <= k < i ==> a@[k] == b@[k],
        decreases n - i,
    {
        if a.get_char(i) != b.get_char(i) {
            return false;
        }
        i = i + 1;
    }
    assert(a@ =~= b@);
    true
}

/// Whether `s` begins with `prefix`.
pub fn starts_with(s: &str, prefix: &str) -> (r: bool)
    ensures
        r == prefix@.is_prefix_of(s@),
{
    let n: usize = prefix.unicode_len();
    if s.unicode_len() < n {
        return false;
    }
    let head = s.substring_char(0, n);
    assert(prefix@.is_prefix_of(s@) == (s@.subrange(0, n as int) == prefix@));
    same(head, prefix)
}

/// The capital letters A to Z become small letters; every other character stays.
pub open spec fn small(c: char) -> char {
    if 'A' <= c && c <= 'Z' {
        ((c as u32) + 32) as char
    } else {
        c
    }
}

/// `s` with its capital letters A to Z made small.
pub open spec fn folded(s: Seq<char>) -> Seq<char> {
    s.map_values(|c: char| small(c))
}

/// Whether `s` is `word`, up to the case of the letters A to Z in `s`.
pub fn same_folded(s: &str, word: &str) -> (r: bool)
    ensures
        r == (folded(s@) == word@),
{
    let n: usize = s.unicode_len();
    if word.unicode_len() != n {
        assert(folded(s@).len() != word@.len());
        return false;
    }
    let mut i: usize = 0;
    while i < n
        invariant
            i <= n == s@.len() == word@.len(),
            forall|k: int| 0 <= k < i ==> small(s@[k]) == word@[k],
        decreases n - i,
    {
        let c: char = s.get_char(i);
        let w: char = word.get_char(i);
        let n: u32 = c as u32;
        let lower: u32 = if 'A' <= c && c <= 'Z' {
            n + 32
        } else {
            n
        };
        if lower != w as u32 {
            assert(folded(s@)[i as int] != word@[i as int]);
            return false;
        }
        i = i + 1;
    }
    assert(folded(s@) =~= word@);
    true
}

/// Whether the character `c` occurs in `s`.
pub fn has_char(s: &str, c: char) -> (r: bool)
    ensures
        r == s@.contains(c),
{
    let n: usize = s.unicode_len();
    let mut i: usize = 0;
    while i < n
        invariant
            i <= n == s@.len(),
            forall|k: int| 0 <= k < i ==> s@[k] != c,
        decreases n - i,
    {
        if s.get_char(i) == c {
            assert(s@[i as int] == c);
            return true;
        }
        i = i + 1;
    }
    false
}

/// The part of `s` behind the last `c` in it; all of `s` where `c` does not occur.
pub open spec fn after_last_of(s: Seq<char>, c: char) -> Seq<char>
    decreases s.len(),
{
    if s.len() == 0 || s.last() == c {
        Seq::empty()
    } else {
        after_last_of(s.drop_last(), c).push(s.last())
    }
}

/// The part of `s` behind the last `c` in it; all of `s` where `c` does not occur.
pub fn after_last(s: &str, c: char) -> (r: &str)
    ensures
        r@ == after_last_of(s@, c),
{
    let n: usize = s.unicode_len();
    let mut i: usize = n;
    assert(s@.subrange(0, n as int) =~= s@);
    assert(after_last_of(s@, c) + s@.subrange(n as int, n as int) =~= after_last_of(s@, c));
    while i > 0 && s.get_char(i - 1) != c
        invariant
            i <= n == s@.len(),
            after_last_of(s@, c) == after_last_of(s@.subrange(0, i as int), c) + s@.subrange(
                i as int,
                n as int,
            ),
        decreases i,
    {
        let ghost head = s@.subrange(0, i as int);
        assert(head.drop_last() =~= s@.subrange(0, i - 1));
        assert(after_last_of(head, c) + s@.subrange(i as int, n as int) =~= after_last_of(
            s@.subrange(0, i - 1),
            c,
        ) + s@.subrange(i - 1, n as int));
        i = i - 1;
    }
    proof {
        let head = s@.subrange(0, i as int);
        if i > 0 {
            assert(head.last() == s@[i - 1]);
        }
        assert(after_last_of(head, c) =~= Seq::<char>::empty());
        assert(after_last_of(s@, c) =~= s@.subrange(i as int, n as int));
    }
    s.substring_char(i, n)
}

/// The digit for `d`.
pub open spec fn digit(d: nat) -> char
    recommends
        d < 10,
{
    (48 + d) as char
}

/// The decimal notation of `n`, without leading zeros.
pub open spec fn decimal(n: nat) -> Seq<char>
    decreases n,
{
    if n < 10 {
        seq![digit(n)]
    } else {
        decimal(n / 10).push(digit(n % 10))
    }
}

/// The text that holds just the digit for `d`.
fn digit_text(d: u64) -> (r: &'static str)
    requires
        d < 10,
    ensures
        r@ == seq![digit(d as nat)],
{
    proof {
        reveal_strlit("0");
        reveal_strlit("1");
        reveal_strlit("2");
        reveal_strlit("3");
        reveal_strlit("4");
        reveal_strlit("5");
        reveal_strlit("6");
        reveal_strlit("7");
        reveal_strlit("8");
        reveal_strlit("9");
    }
    match d {
        0 => "0",
        1 => "1",
        2 => "2",
        3 => "3",
        4 => "4",
        5 => "5",
        6 => "6",
        7 => "7",
        8 => "8",
        _ => "9",
    }
}

/// `n` in decimal notation.
pub fn decimal_text(n: u64) -> (r: String)
    ensures
        r@ == decimal(n as nat),
    decreases n,
{
    if n < 10 {
        digit_text(n).to_owned()
    } else {
        let mut s = decimal_text(n / 10);
        s.append(digit_text(n % 10));
        proof {
            assert(s@ =~= decimal(n as nat / 10).push(digit(n as nat % 10)));
        }
        s
    }
}

/// Whether `c` is one of the digits 0 to 9.
pub open spec fn is_digit(c: char) -> bool {
    '0' <= c && c <= '9'
}

/// Whether `s` consists of digits.
pub open spec fn all_digits(s: Seq<char>) -> bool {
    forall|i: int| 0 <= i < s.len() ==> is_digit(#[trigger] s[i])
}

/// The number that a sequence of digits denotes.
pub open spec fn number(s: Seq<char>) -> nat
    decreases s.len(),
{
    if s.len() == 0 {
        0
    } else {
        number(s.drop_last()) * 10 + (s.last() as u32 - 48) as nat
    }
}

/// The number that `s` denotes, where `s` is a sign or none, then at least one digit, then
/// nothing more, and the number fits in 64 bits.
pub open spec fn signed_number(s: Seq<char>) -> Option<int> {
    let signed = s.len() > 0 && (s[0] == '+' || s[0] == '-');
    let digits = if signed {
        s.drop_first()
    } else {
        s
    };
    let value = if signed && s[0] == '-' {
        -number(digits)
    } else {
        number(digits) as int
    };
    if digits.len() > 0 && all_digits(digits) && i64::MIN <= value <= i64::MAX {
        Some(value)
    } else {
        None
    }
}

/// The number that the digits of `s` from position `from` on denote: `None` where there are no
/// digits, something else than digits, or a number above `limit`.
fn digits_from(s: &str, from: usize, limit: u64) -> (r: Option<u64>)
    requires
        from <= s@.len(),
    ensures
        ({
            let digits = s@.subrange(from as int, s@.len() as int);
            match r {
                Some(v) => digits.len() > 0 && all_digits(digits) && v == number(digits) && v
                    <= limit,
                None => digits.len() == 0 || !all_digits(digits) || number(digits) > limit,
            }
        }),
{
    let n: usize = s.unicode_len();
    let ghost digits = s@.subrange(from as int, n as int);
    if from == n {
        return None;
    }
    let mut i: usize = from;
    let mut v: u64 = 0;
    // Set once the digits read so far denote a number above the limit.
    let mut above: bool = false;
    while i < n
        invariant
            from <= i <= n == s@.len(),
            digits == s@.subrange(from as int, n as int),
            all_digits(digits.subrange(0, i - from)),
            above ==> number(digits.subrange(0, i - from)) > limit,
            !above ==> v == number(digits.subrange(0, i - from)) && v <= limit,
        decreases n - i,
    {
        let c: char = s.get_char(i);
        assert(digits[i - from] == c);
        if !('0' <= c && c <= '9') {
            return None;
        }
        let d: u64 = (c as u32 - 48) as u64;
        let ghost head = digits.subrange(0, i - from);
        let ghost next = digits.subrange(0, i + 1 - from);
        assert(next.drop_last() =~= head);
        assert(all_digits(next)) by {
            assert forall|k: int| 0 <= k < next.len() implies is_digit(#[trigger] next[k]) by {
                if k < head.len() {
                    assert(next[k] == head[k]);
                }
            }
        }
        assert(number(next) == number(head) * 10 + d);
        if !above {
            if v > limit / 10 || (v == limit / 10 && d > limit % 10) {
                above = true;
            } else {
                v = v * 10 + d;
            }
        }
        i = i + 1;
    }
    assert(digits.subrange(0, n - from) =~= digits);
    if above {
        None
    } else {
        Some(v)
    }
}

/// Reads a signed decimal number.
pub fn parse_signed(s: &str) -> (r: Option<i64>)
    ensures
        match r {
            Some(v) => signed_number(s@) == Some(v as int),
            None => signed_number(s@) is None,
        },
{
    let n: usize = s.unicode_len();
    if n == 0 {
        return None;
    }
    let first: char = s.get_char(0);
    assert(s@.subrange(1, n as int) =~= s@.drop_first());
    assert(s@.subrange(0, n as int) =~= s@);
    if first == '-' {
        match digits_from(s, 1, 0x8000_0000_0000_0000) {
            Some(v) => if v == 0x8000_0000_0000_0000 {
                Some(i64::MIN)
            } else {
                Some(-(v as i64))
            },
            None => None,
        }
    } else {
        let from: usize = if first == '+' {
            1
        } else {
            0
        };
        match digits_from(s, from, 0x7FFF_FFFF_FFFF_FFFF) {
            Some(v) => Some(v as i64),
            None => None,
        }
    }
}

/// The decimal notation denotes the number it was made from.
pub proof fn law_decimal_denotes(n: nat)
    ensures
        decimal(n).len() > 0,
        all_digits(decimal(n)),
        number(decimal(n)) == n,
    decreases n,
{
    if n < 10 {
        assert(decimal(n).drop_last() =~= Seq::<char>::empty());
        assert(number(decimal(n).drop_last()) == 0);
    } else {
        law_decimal_denotes(n / 10);
        let s = decimal(n);
        assert(s.drop_last() =~= decimal(n / 10));
        assert forall|i: int| 0 <= i < s.len() implies is_digit(#[trigger] s[i]) by {
            if i < s.len() - 1 {
                assert(s[i] == decimal(n / 10)[i]);
            }
        }
    }
}

/// Reading the decimal notation of a number that fits gives the number back.
pub proof fn law_signed_number_of_decimal(n: nat)
    requires
        n <= i64::MAX,
    ensures
        signed_number(decimal(n)) == Some(n as int),
        signed_number(seq!['-'] + decimal(n)) == Some(-(n as int)),
{
    law_decimal_denotes(n);
    assert(is_digit(decimal(n)[0]));
    assert((seq!['-'] + decimal(n)).drop_first() =~= decimal(n));
}

/// White space round a text does not change what is left of it.
pub proof fn law_trimmed_of_padded(before: Seq<char>, s: Seq<char>, after: Seq<char>)
    requires
        forall|i: int| 0 <= i < before.len() ==> is_space(#[trigger] before[i]),
        forall|i: int| 0 <= i < after.len() ==> is_space(#[trigger] after[i]),
    ensures
        trimmed(before + s + after) == trimmed(s),
    decreases before.len() + after.len(),
{
    let t = before + s + after;
    if before.len() > 0 {
        assert(t[0] == before[0]);
        assert(t.drop_first() =~= before.drop_first() + s + after);
        assert forall|i: int| 0 <= i < before.drop_first().len() implies is_space(
            #[trigger] before.drop_first()[i],
        ) by {
            assert(before.drop_first()[i] == before[i + 1]);
        }
        law_trimmed_of_padded(before.drop_first(), s, after);
    } else {
        assert(t =~= s + after);
        lemma_trim_end_of_padded(s, after);
    }
}

/// White space behind a text does not change what is left of it.
proof fn lemma_trim_end_of_padded(s: Seq<char>, after: Seq<char>)
    requires
        forall|i: int| 0 <= i < after.len() ==> is_space(#[trigger] after[i]),
    ensures
        trimmed(s + after) == trimmed(s),
    decreases s.len() + after.len(),
{
    if after.len() == 0 {
        assert(s + after =~= s);
    } else if s.len() > 0 && is_space(s[0]) {
        assert((s + after)[0] == s[0]);
        assert((s + after).drop_first() =~= s.drop_first() + after);
        lemma_trim_end_of_padded(s.drop_first(), after);
    } else if s.len() > 0 {
        assert((s + after)[0] == s[0]);
        let t = s + after;
        assert(t.last() == after.last());
        assert(t.drop_last() =~= s + after.drop_last());
        assert forall|i: int| 0 <= i < after.drop_last().len() implies is_space(
            #[trigger] after.drop_last()[i],
        ) by {
            assert(after.drop_last()[i] == after[i]);
        }
        lemma_trim_end_of_padded(s, after.drop_last());
        assert((s + after.drop_last())[0] == s[0]);
    } else {
        assert(s + after =~= after);
        assert(after.drop_first() =~= s + after.drop_first());
        assert forall|i: int| 0 <= i < after.drop_first().len() implies is_space(
            #[trigger] after.drop_first()[i],
        ) by {
            assert(after.drop_first()[i] == after[i + 1]);
        }
        lemma_trim_end_of_padded(s, after.drop_first());
    }
}

/// Trimming takes white space off both ends and nothing else: what is left is a part of the text
/// with nothing but white space before and behind it, and it neither begins nor ends with any.
pub proof fn law_trimming_takes_only_white_space(s: Seq<char>)
    ensures
        exists|i: int, j: int|
            #![trigger s.subrange(i, j)]
            {
                &&& 0 <= i <= j <= s.len()
                &&& trimmed(s) == s.subrange(i, j)
                &&& forall|k: int| 0 <= k < i ==> is_space(#[trigger] s[k])
                &&& forall|k: int| j <= k < s.len() ==> is_space(#[trigger] s[k])
            },
        trimmed(s).len() > 0 ==> !is_space(trimmed(s)[0]) && !is_space(trimmed(s).last()),
{
    let i = lemma_trim_start(s);
    let t = s.subrange(i, s.len() as int);
    let n = lemma_trim_end(t);
    assert(t.subrange(0, n) =~= s.subrange(i, i + n));
    assert forall|k: int| i + n <= k < s.len() implies is_space(#[trigger] s[k]) by {
        assert(t[k - i] == s[k]);
    }
    if trimmed(s).len() > 0 {
        assert(trimmed(s)[0] == t[0]);
    }
}

/// Where the text begins once the white space before it is gone.
proof fn lemma_trim_start(s: Seq<char>) -> (i: int)
    ensures
        0 <= i <= s.len(),
        trim_start(s) == s.subrange(i, s.len() as int),
        forall|k: int| 0 <= k < i ==> is_space(#[trigger] s[k]),
        i < s.len() ==> !is_space(s[i]),
    decreases s.len(),
{
    if s.len() > 0 && is_space(s[0]) {
        let rest = s.drop_first();
        let i = lemma_trim_start(rest);
        assert(rest.subrange(i, rest.len() as int) =~= s.subrange(i + 1, s.len() as int));
        assert forall|k: int| 0 <= k < i + 1 implies is_space(#[trigger] s[k]) by {
            if k > 0 {
                assert(rest[k - 1] == s[k]);
            }
        }
        i + 1
    } else {
        assert(s.subrange(0, s.len() as int) =~= s);
        0
    }
}

/// How long the text is once the white space behind it is gone.
proof fn lemma_trim_end(s: Seq<char>) -> (n: int)
    ensures
        0 <= n <= s.len(),
        trim_end(s) == s.subrange(0, n),
        forall|k: int| n <= k < s.len() ==> is_space(#[trigger] s[k]),
        n > 0 ==> !is_space(s[n - 1]),
    decreases s.len(),
{
    if s.len() > 0 && is_space(s.last()) {
        let rest = s.drop_last();
        let n = lemma_trim_end(rest);
        assert(rest.subrange(0, n) =~= s.subrange(0, n));
        assert forall|k: int| n <= k < s.len() implies is_space(#[trigger] s[k]) by {
            if k < rest.len() {
                assert(rest[k] == s[k]);
            }
        }
        n
    } else {
        assert(s.subrange(0, s.len() as int) =~= s);
        s.len() as int
    }
}

/// Folding makes the letters A to Z small, each in its place, and leaves every other character.
pub proof fn law_folding_makes_capitals_small(s: Seq<char>, i: int)
    requires
        0 <= i < s.len(),
    ensures
        folded(s).len() == s.len(),
        65 <= s[i] as u32 <= 90 ==> folded(s)[i] as u32 == s[i] as u32 + 32,
        !(65 <= s[i] as u32 <= 90) ==> folded(s)[i] == s[i],
{
}

/// A digit more behind a number makes ten times the number and the digit; and the digits are the
/// characters from 48 to 57, in their order.
pub proof fn law_numbers_are_decimal(s: Seq<char>, d: nat)
    requires
        d < 10,
    ensures
        number(Seq::empty()) == 0,
        number(s.push(digit(d))) == 10 * number(s) + d,
        digit(d) as u32 == 48 + d,
        is_digit(digit(d)),
{
    assert(s.push(digit(d)).drop_last() =~= s);
}

/// The decimal notation has no leading zeros.
pub proof fn law_decimal_is_short(n: nat)
    ensures
        n > 0 ==> decimal(n)[0] != '0',
        n == 0 ==> decimal(n) == seq!['0'],
    decreases n,
{
    if n >= 10 {
        law_decimal_is_short(n / 10);
        law_decimal_denotes(n / 10);
        assert(decimal(n)[0] == decimal(n / 10)[0]);
    }
}

/// A sequence of digits is read as the number that it denotes, with a sign before it or none, as far
/// as the number has room in 64 bits; a number with a minus is that much below zero.
pub proof fn law_signs_are_read(digits: Seq<char>)
    requires
        digits.len() > 0,
        all_digits(digits),
    ensures
        ({
            let n = number(digits);
            &&& n <= 0x7FFF_FFFF_FFFF_FFFF ==> signed_number(digits) == Some(n as int)
                && signed_number(seq!['+'] + digits) == Some(n as int)
            &&& n > 0x7FFF_FFFF_FFFF_FFFF ==> signed_number(digits) is None && signed_number(
                seq!['+'] + digits,
            ) is None
            &&& n <= 0x8000_0000_0000_0000 ==> signed_number(seq!['-'] + digits) == Some(-(n as int))
            &&& n > 0x8000_0000_0000_0000 ==> signed_number(seq!['-'] + digits) is None
        }),
{
    assert(is_digit(digits[0]));
    assert((seq!['-'] + digits).drop_first() =~= digits);
    assert((seq!['+'] + digits).drop_first() =~= digits);
}

/// Nothing but a number is read as one: at least one digit, nothing but digits, and a sign before
/// them or none.
pub proof fn law_only_numbers_are_read(s: Seq<char>)
    ensures
        signed_number(s) is Some ==> s.len() > 0 && {
            let digits = if s[0] == '+' || s[0] == '-' {
                s.skip(1)
            } else {
                s
            };
            digits.len() > 0 && forall|i: int|
                0 <= i < digits.len() ==> 48 <= #[trigger] digits[i] as u32 <= 57
        },
{
    if s.len() > 0 {
        assert(s.drop_first() =~= s.skip(1));
    }
}

/// What stands behind the last of a character has none of them in it, and all of it follows the last
/// one, where there is one.
pub proof fn law_after_the_last(s: Seq<char>, c: char)
    ensures
        !after_last_of(s, c).contains(c),
        s.contains(c) ==> exists|i: int|
            0 <= i < s.len() && s[i] == c && after_last_of(s, c) == #[trigger] s.skip(i + 1),
        !s.contains(c) ==> after_last_of(s, c) == s,
    decreases s.len(),
{
    if s.len() > 0 {
        let rest = s.drop_last();
        law_after_the_last(rest, c);
        assert(s.last() == s[s.len() - 1]);
        if s.last() == c {
            assert(s.skip(s.len() as int) =~= Seq::<char>::empty());
            assert(after_last_of(s, c) == s.skip(s.len() - 1 + 1));
        } else {
            let tail = after_last_of(rest, c);
            assert forall|k: int| 0 <= k < tail.push(s.last()).len() implies tail.push(
                s.last(),
            )[k] != c by {
                if k < tail.len() {
                    assert(tail.contains(tail[k]));
                }
            }
            if rest.contains(c) {
                let i = choose|i: int|
                    0 <= i < rest.len() && rest[i] == c && after_last_of(rest, c) == #[trigger] rest.skip(
                        i + 1,
                    );
                assert(s[i] == c);
                assert(rest.skip(i + 1).push(s.last()) =~= s.skip(i + 1));
            } else {
                if s.contains(c) {
                    let i = choose|i: int| 0 <= i < s.len() && s[i] == c;
                    assert(rest[i] == c);
                }
                assert(rest.push(s.last()) =~= s);
            }
            if s.contains(c) && !rest.contains(c) {
                let i = choose|i: int| 0 <= i < s.len() && s[i] == c;
                assert(rest[i] == c);
            }
        }
    }
}

} // verus!
