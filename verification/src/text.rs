//! Text helpers: list and word membership, and the number formats that
//! diagnostics carry.

use vstd::prelude::*;

verus! {

/// `c` has the Unicode `White_Space` property.
pub open spec fn is_white_space(c: char) -> bool {
    let n = c as u32;
    ||| 0x9 <= n <= 0xD
    ||| n == 0x20
    ||| n == 0x85
    ||| n == 0xA0
    ||| n == 0x1680
    ||| 0x2000 <= n <= 0x200A
    ||| n == 0x2028
    ||| n == 0x2029
    ||| n == 0x202F
    ||| n == 0x205F
    ||| n == 0x3000
}

/// Whether `c` has the Unicode `White_Space` property.
pub fn is_space(c: char) -> (r: bool)
    ensures
        r == is_white_space(c),
{
    let n: u32 = c as u32;
    (n >= 0x9 && n <= 0xD) || n == 0x20 || n == 0x85 || n == 0xA0 || n == 0x1680 || (n >= 0x2000
        && n <= 0x200A) || n == 0x2028 || n == 0x2029 || n == 0x202F || n == 0x205F || n == 0x3000
}

/// The five characters ASCII counts as white space.
pub open spec fn is_ascii_space(c: char) -> bool {
    c == '\t' || c == '\n' || c == '\u{C}' || c == '\r' || c == ' '
}

/// `s` without its leading white space.
pub open spec fn trim_start(s: Seq<char>) -> Seq<char>
    decreases s.len(),
{
    if s.len() > 0 && is_white_space(s[0]) {
        trim_start(s.skip(1))
    } else {
        s
    }
}

/// `s` without its trailing white space.
pub open spec fn trim_end(s: Seq<char>) -> Seq<char>
    decreases s.len(),
{
    if s.len() > 0 && is_white_space(s.last()) {
        trim_end(s.drop_last())
    } else {
        s
    }
}

/// `s` without its leading and trailing white space.
pub open spec fn trim(s: Seq<char>) -> Seq<char> {
    trim_end(trim_start(s))
}

/// `s[lo..hi]` is one of the pieces that `sep` splits `s` into.
pub open spec fn is_piece(s: Seq<char>, sep: char, lo: int, hi: int) -> bool {
    &&& 0 <= lo <= hi <= s.len()
    &&& lo == 0 || s[lo - 1] == sep
    &&& hi == s.len() || s[hi] == sep
    &&& forall|i: int| lo <= i < hi ==> #[trigger] s[i] != sep
}

/// Some piece of the `sep`-separated `list` is `name` once trimmed.
pub open spec fn lists(list: Seq<char>, sep: char, name: Seq<char>) -> bool {
    exists|lo: int, hi: int| #[trigger]
        is_piece(list, sep, lo, hi) && trim(list.subrange(lo, hi)) == name
}

/// `s[lo..hi]` is a word: a longest run without ASCII white space.
pub open spec fn is_word(s: Seq<char>, lo: int, hi: int) -> bool {
    &&& 0 <= lo < hi <= s.len()
    &&& lo == 0 || is_ascii_space(s[lo - 1])
    &&& hi == s.len() || is_ascii_space(s[hi])
    &&& forall|i: int| lo <= i < hi ==> !is_ascii_space(#[trigger] s[i])
}

/// One of the words of `text` is `name`.
pub open spec fn has_word(text: Seq<char>, name: Seq<char>) -> bool {
    exists|lo: int, hi: int| #[trigger] is_word(text, lo, hi) && text.subrange(lo, hi) == name
}

/// The digit `d`, in lower case from ten on.
pub open spec fn digit_char(d: nat) -> char {
    if d < 10 {
        (48 + d) as char
    } else {
        (87 + d) as char
    }
}

/// `n` in decimal.
pub open spec fn decimal(n: nat) -> Seq<char>
    decreases n,
{
    if n < 10 {
        seq![digit_char(n)]
    } else {
        decimal(n / 10).push(digit_char(n % 10))
    }
}

/// `n` in decimal, with a leading minus sign where it is negative.
pub open spec fn signed_decimal(n: int) -> Seq<char> {
    if n < 0 {
        seq!['-'] + decimal((-n) as nat)
    } else {
        decimal(n as nat)
    }
}

/// `n` in hexadecimal, padded with zeros to at least `min` digits.
pub open spec fn hex_digits(n: nat, min: nat) -> Seq<char>
    decreases n, min,
{
    if n < 16 && min <= 1 {
        seq![digit_char(n)]
    } else {
        hex_digits(n / 16, if min > 1 { (min - 1) as nat } else { 1 }).push(digit_char(n % 16))
    }
}

/// `n` as `0x` and at least `min` hexadecimal digits.
pub open spec fn hex(n: nat, min: nat) -> Seq<char> {
    seq!['0', 'x'] + hex_digits(n, min)
}

/// Whether the two texts are equal.
pub fn same_text(a: &str, b: &str) -> (r: bool)
    ensures
        r == (a@ == b@),
{
    a.to_owned() == b.to_owned()
}

/// The characters of `s`.
pub fn chars_of(s: &str) -> (v: Vec<char>)
    ensures
        v@ == s@,
{
    let mut v: Vec<char> = Vec::new();
    for c in it: s.chars()
        invariant
            v@ == it.seq().take(it.index() as int),
            it.seq() == s@,
    {
        v.push(c);
    }
    v
}

/// Dropping the first character of a run of white space changes nothing.
pub(crate) proof fn lemma_trim_start_at(s: Seq<char>, a: int)
    requires
        0 <= a <= s.len(),
        forall|i: int| 0 <= i < a ==> is_white_space(#[trigger] s[i]),
        a == s.len() || !is_white_space(s[a]),
    ensures
        trim_start(s) == s.skip(a),
    decreases a,
{
    if a > 0 {
        let t = s.skip(1);
        assert forall|i: int| 0 <= i < a - 1 implies is_white_space(#[trigger] t[i]) by {
            assert(t[i] == s[i + 1]);
        }
        lemma_trim_start_at(t, a - 1);
        assert(t.skip(a - 1) == s.skip(a));
    } else {
        assert(s.skip(0) == s);
    }
}

pub(crate) proof fn lemma_trim_end_at(s: Seq<char>, b: int)
    requires
        0 <= b <= s.len(),
        forall|i: int| b <= i < s.len() ==> is_white_space(#[trigger] s[i]),
        b == 0 || !is_white_space(s[b - 1]),
    ensures
        trim_end(s) == s.take(b),
    decreases s.len() - b,
{
    if b < s.len() {
        let t = s.drop_last();
        assert(is_white_space(s[s.len() - 1]));
        assert forall|i: int| b <= i < t.len() implies is_white_space(#[trigger] t[i]) by {
            assert(t[i] == s[i]);
        }
        lemma_trim_end_at(t, b);
        assert(t.take(b) == s.take(b));
    } else {
        assert(s.take(b) == s);
    }
}

/// Whether `v[lo..hi]` is `name` once trimmed.
fn trims_to(v: &Vec<char>, lo: usize, hi: usize, name: &Vec<char>) -> (r: bool)
    requires
        lo <= hi <= v@.len(),
    ensures
        r == (trim(v@.subrange(lo as int, hi as int)) == name@),
{
    let ghost s = v@.subrange(lo as int, hi as int);
    let mut a: usize = lo;
    while a < hi && is_space(v[a])
        invariant
            lo <= a <= hi <= v@.len(),
            s == v@.subrange(lo as int, hi as int),
            forall|i: int| 0 <= i < a - lo ==> is_white_space(#[trigger] s[i]),
        ensures
            a == hi || !is_white_space(v@[a as int]),
        decreases hi - a,
    {
        assert(s[a - lo] == v@[a as int]);
        a = a + 1;
    }
    proof {
        lemma_trim_start_at(s, a - lo);
    }
    let ghost t = s.skip(a - lo);
    let mut b: usize = hi;
    while a < b && is_space(v[b - 1])
        invariant
            lo <= a <= b <= hi <= v@.len(),
            s == v@.subrange(lo as int, hi as int),
            t == s.skip(a - lo),
            forall|i: int| b - a <= i < t.len() ==> is_white_space(#[trigger] t[i]),
        ensures
            a == b || !is_white_space(v@[b - 1]),
        decreases b - a,
    {
        assert(t[b - 1 - a] == v@[b - 1]);
        b = b - 1;
    }
    proof {
        assert(a < b ==> t[b - a - 1] == v@[b - 1]);
        lemma_trim_end_at(t, b - a);
        assert(t.take(b - a) == v@.subrange(a as int, b as int));
    }
    equals_at(v, a, b, name)
}

/// Whether `v[lo..hi]` is `name`.
fn equals_at(v: &Vec<char>, lo: usize, hi: usize, name: &Vec<char>) -> (r: bool)
    requires
        lo <= hi <= v@.len(),
    ensures
        r == (v@.subrange(lo as int, hi as int) == name@),
{
    if hi - lo != name.len() {
        return false;
    }
    let ghost s = v@.subrange(lo as int, hi as int);
    let mut i: usize = 0;
    while i < name.len()
        invariant
            lo <= hi <= v@.len(),
            hi - lo == name@.len(),
            i <= name@.len(),
            s == v@.subrange(lo as int, hi as int),
            forall|j: int| 0 <= j < i ==> s[j] == name@[j],
        decreases name@.len() - i,
    {
        assert(s[i as int] == v@[lo + i]);
        if v[lo + i] != name[i] {
            return false;
        }
        i = i + 1;
    }
    assert(s == name@);
    true
}

/// Whether some piece of the `sep`-separated `list` is `name` once trimmed.
pub fn lists_name(list: &str, sep: char, name: &str) -> (r: bool)
    ensures
        r == lists(list@, sep, name@),
{
    let v = chars_of(list);
    let n = chars_of(name);
    let mut lo: usize = 0;
    let mut i: usize = 0;
    while i < v.len()
        invariant
            v@ == list@,
            n@ == name@,
            lo <= i <= v@.len(),
            lo == 0 || v@[lo - 1] == sep,
            forall|j: int| lo <= j < i ==> #[trigger] v@[j] != sep,
            forall|a: int, b: int|
                #[trigger] is_piece(v@, sep, a, b) && a < lo ==> trim(v@.subrange(a, b)) != n@,
        decreases v@.len() - i,
    {
        if v[i] == sep {
            assert(is_piece(v@, sep, lo as int, i as int));
            if trims_to(&v, lo, i, &n) {
                return true;
            }
            assert forall|a: int, b: int|
                #[trigger] is_piece(v@, sep, a, b) && a < i + 1 implies trim(v@.subrange(a, b))
                != n@ by {
                if a >= lo {
                    if a > lo {
                        assert(v@[a - 1] == sep);
                    }
                    if b > i {
                        assert(v@[i as int] != sep);
                    }
                    if b < i {
                        assert(v@[b] == sep);
                    }
                }
            }
            lo = i + 1;
        }
        i = i + 1;
    }
    assert(is_piece(v@, sep, lo as int, i as int));
    if trims_to(&v, lo, i, &n) {
        return true;
    }
    assert forall|a: int, b: int| #[trigger] is_piece(v@, sep, a, b) implies trim(v@.subrange(a, b))
        != n@ by {
        if a >= lo {
            if a > lo {
                assert(v@[a - 1] == sep);
            }
            if b < i {
                assert(v@[b] == sep);
            }
        }
    }
    false
}

fn is_ascii_gap(c: char) -> (r: bool)
    ensures
        r == is_ascii_space(c),
{
    c == '\t' || c == '\n' || c == '\u{C}' || c == '\r' || c == ' '
}

/// Whether `name` is one of the words of `text`.
pub fn names_word(text: &str, name: &str) -> (r: bool)
    ensures
        r == has_word(text@, name@),
{
    let v = chars_of(text);
    let n = chars_of(name);
    let mut lo: usize = 0;
    let mut i: usize = 0;
    while i < v.len()
        invariant
            v@ == text@,
            n@ == name@,
            lo <= i <= v@.len(),
            lo == 0 || is_ascii_space(v@[lo - 1]),
            forall|j: int| lo <= j < i ==> !is_ascii_space(#[trigger] v@[j]),
            forall|a: int, b: int| #[trigger] is_word(v@, a, b) && a < lo ==> v@.subrange(a, b) != n@,
        decreases v@.len() - i,
    {
        if is_ascii_gap(v[i]) {
            if lo < i {
                assert(is_word(v@, lo as int, i as int));
                if equals_at(&v, lo, i, &n) {
                    return true;
                }
            }
            assert forall|a: int, b: int|
                #[trigger] is_word(v@, a, b) && a < i + 1 implies v@.subrange(a, b) != n@ by {
                if a >= lo {
                    if a > lo {
                        assert(is_ascii_space(v@[a - 1]));
                    }
                    if b > i {
                        assert(!is_ascii_space(v@[i as int]));
                    }
                    if b < i {
                        assert(is_ascii_space(v@[b]));
                    }
                }
            }
            lo = i + 1;
        }
        i = i + 1;
    }
    if lo < i {
        assert(is_word(v@, lo as int, i as int));
        if equals_at(&v, lo, i, &n) {
            return true;
        }
    }
    assert forall|a: int, b: int| #[trigger] is_word(v@, a, b) implies v@.subrange(a, b) != n@ by {
        if a >= lo {
            if a > lo {
                assert(is_ascii_space(v@[a - 1]));
            }
            if b < i {
                assert(is_ascii_space(v@[b]));
            }
        }
    }
    false
}

/// The digit `d` as text.
fn digit_text(d: u32) -> (r: &'static str)
    requires
        d < 16,
    ensures
        r@ == seq![digit_char(d as nat)],
{
    proof {
        reveal_strlit("0");
        reveal_strlit("1");
        reveal_strlit("2");
        reveal_strlit("3");
        reveal_strlit("4");
        reveal_strlit("5");
        reveal_strlit("6");
        reveal_strlit("7");
        reveal_strlit("8");
        reveal_strlit("9");
        reveal_strlit("a");
        reveal_strlit("b");
        reveal_strlit("c");
        reveal_strlit("d");
        reveal_strlit("e");
        reveal_strlit("f");
    }
    let r: &'static str = match d {
        0 => "0",
        1 => "1",
        2 => "2",
        3 => "3",
        4 => "4",
        5 => "5",
        6 => "6",
        7 => "7",
        8 => "8",
        9 => "9",
        10 => "a",
        11 => "b",
        12 => "c",
        13 => "d",
        14 => "e",
        _ => "f",
    };
    assert(r@ =~= seq![digit_char(d as nat)]);
    r
}

/// Append `n` in decimal.
pub fn push_decimal(out: &mut String, n: u32)
    ensures
        final(out)@ == old(out)@ + decimal(n as nat),
    decreases n,
{
    if n < 10 {
        out.append(digit_text(n));
    } else {
        push_decimal(out, n / 10);
        out.append(digit_text(n % 10));
        assert(out@ =~= old(out)@ + decimal(n as nat));
    }
}

/// Append `n` in decimal, with a leading minus sign where it is negative.
pub fn push_signed(out: &mut String, n: i32)
    ensures
        final(out)@ == old(out)@ + signed_decimal(n as int),
{
    if n < 0 {
        proof {
            reveal_strlit("-");
        }
        let m: i64 = -(n as i64);
        out.append("-");
        push_decimal(out, m as u32);
        assert("-"@ =~= seq!['-']);
        assert(out@ =~= old(out)@ + signed_decimal(n as int));
    } else {
        push_decimal(out, n as u32);
    }
}

/// Append at least `min` hexadecimal digits of `n`.
fn push_hex_digits(out: &mut String, n: u32, min: u32)
    ensures
        final(out)@ == old(out)@ + hex_digits(n as nat, min as nat),
    decreases n, min,
{
    if n < 16 && min <= 1 {
        out.append(digit_text(n));
    } else {
        let rest: u32 = if min > 1 { min - 1 } else { 1 };
        push_hex_digits(out, n / 16, rest);
        out.append(digit_text(n % 16));
        assert(out@ =~= old(out)@ + hex_digits(n as nat, min as nat));
    }
}

/// Append `n` as `0x` and at least `min` hexadecimal digits.
pub fn push_hex(out: &mut String, n: u32, min: u32)
    ensures
        final(out)@ == old(out)@ + hex(n as nat, min as nat),
{
    proof {
        reveal_strlit("0x");
    }
    out.append("0x");
    push_hex_digits(out, n, min);
    assert("0x"@ =~= seq!['0', 'x']);
    assert(out@ =~= old(out)@ + hex(n as nat, min as nat));
}

/// A list of one name, without white space around it, lists that name and no
/// other.
pub proof fn law_a_lone_name_is_listed(name: Seq<char>, sep: char, other: Seq<char>)
    requires
        !name.contains(sep),
        trim(name) == name,
    ensures
        lists(name, sep, other) == (other == name),
{
    assert(name.subrange(0, name.len() as int) =~= name);
    assert(is_piece(name, sep, 0, name.len() as int));
    if lists(name, sep, other) {
        let (lo, hi) = choose|lo: int, hi: int| #[trigger]
            is_piece(name, sep, lo, hi) && trim(name.subrange(lo, hi)) == other;
        assert(lo == 0);
        assert(hi == name.len());
    }
}

/// What a digit stands for, in lower case from ten on.
pub open spec fn digit_value(c: char) -> int {
    if c as int >= 97 {
        c as int - 87
    } else {
        c as int - 48
    }
}

/// What digits stand for in base `base`.
pub open spec fn digits_value(digits: Seq<char>, base: int) -> int
    decreases digits.len(),
{
    if digits.len() == 0 {
        0
    } else {
        digits_value(digits.drop_last(), base) * base + digit_value(digits.last())
    }
}

/// A number in decimal reads back as that number.
pub proof fn law_decimal_reads_back(n: nat)
    ensures
        digits_value(decimal(n), 10) == n,
    decreases n,
{
    reveal_with_fuel(digits_value, 2);
    if n >= 10 {
        law_decimal_reads_back(n / 10);
        assert(decimal(n).drop_last() =~= decimal(n / 10));
    } else {
        assert(decimal(n).drop_last() =~= Seq::<char>::empty());
    }
}

/// A number in hexadecimal reads back as that number, and has the digits
/// asked for.
pub proof fn law_hex_reads_back(n: nat, min: nat)
    ensures
        digits_value(hex_digits(n, min), 16) == n,
        hex_digits(n, min).len() >= min,
    decreases n, min,
{
    reveal_with_fuel(digits_value, 2);
    if n < 16 && min <= 1 {
        assert(hex_digits(n, min).drop_last() =~= Seq::<char>::empty());
    } else {
        let rest = if min > 1 {
            (min - 1) as nat
        } else {
            1
        };
        law_hex_reads_back(n / 16, rest);
        assert(hex_digits(n, min).drop_last() =~= hex_digits(n / 16, rest));
    }
}

} // verus!
