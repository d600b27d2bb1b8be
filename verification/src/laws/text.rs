//! Laws of the text helpers.

use vstd::prelude::*;

use crate::text::{
    chars_of, is_space, lists_name, names_word, push_decimal, push_hex, push_signed, same_text,
};
#[allow(unused_imports)]
use crate::text::{
    decimal, digits_value, has_word, hex_digits, is_piece, is_white_space, is_word,
    law_decimal_reads_back, law_hex_reads_back, lemma_trim_end_at, lemma_trim_start_at, lists,
    trim, trim_end,
};

verus! {

/// White space is what Unicode counts as it: the controls from tab to carriage
/// return, the space, the next line, and the spaces and separators beyond ASCII.
pub proof fn law_white_space_is_unicodes(c: char, r: bool)
    requires
        call_ensures(is_space, (c,), r),
    ensures
        r <==> '\u{9}' <= c <= '\u{D}' || c == ' ' || c == '\u{85}' || c == '\u{A0}' || c
            == '\u{1680}' || '\u{2000}' <= c <= '\u{200A}' || c == '\u{2028}' || c == '\u{2029}'
            || c == '\u{202F}' || c == '\u{205F}' || c == '\u{3000}',
        r == is_white_space(c),
{
}

/// Two texts are the same if and only if they have the same characters.
pub proof fn law_texts_are_compared_by_their_characters(a: &str, b: &str, r: bool, of_a: Vec<char>)
    requires
        call_ensures(same_text, (a, b), r),
        call_ensures(chars_of, (a,), of_a),
    ensures
        r <==> a@.len() == b@.len() && forall|i: int| 0 <= i < a@.len() ==> a@[i] == b@[i],
        of_a@.len() == a@.len(),
        forall|i: int| 0 <= i < a@.len() ==> #[trigger] of_a@[i] == a@[i],
{
    if a@.len() == b@.len() && forall|i: int| 0 <= i < a@.len() ==> a@[i] == b@[i] {
        assert(a@ =~= b@);
    }
}

/// `list[lo..hi]` lies between separators or ends and holds none, and without
/// the white space at its edges it is `list[a..b]`, which is `name`.
pub open spec fn piece_names(
    list: Seq<char>,
    sep: char,
    name: Seq<char>,
    lo: int,
    hi: int,
    a: int,
    b: int,
) -> bool {
    &&& 0 <= lo <= a <= b <= hi <= list.len()
    &&& lo == 0 || list[lo - 1] == sep
    &&& hi == list.len() || list[hi] == sep
    &&& forall|i: int| lo <= i < hi ==> #[trigger] list[i] != sep
    &&& forall|i: int| lo <= i < a || b <= i < hi ==> is_white_space(#[trigger] list[i])
    &&& a < b ==> !is_white_space(list[a]) && !is_white_space(list[b - 1])
    &&& list.subrange(a, b) == name
}

/// Where the leading white space of `s` ends.
proof fn lemma_trim_start(s: Seq<char>) -> (a: int)
    ensures
        0 <= a <= s.len(),
        forall|i: int| 0 <= i < a ==> is_white_space(#[trigger] s[i]),
        a == s.len() || !is_white_space(s[a]),
    decreases s.len(),
{
    if s.len() > 0 && is_white_space(s[0]) {
        let rest = s.skip(1);
        let a = lemma_trim_start(rest);
        assert forall|i: int| 0 <= i < a + 1 implies is_white_space(#[trigger] s[i]) by {
            if i > 0 {
                assert(rest[i - 1] == s[i]);
            }
        }
        if a < rest.len() {
            assert(rest[a] == s[a + 1]);
        }
        a + 1
    } else {
        0
    }
}

/// Where the trailing white space of `s` begins.
proof fn lemma_trim_end(s: Seq<char>) -> (b: int)
    ensures
        0 <= b <= s.len(),
        forall|i: int| b <= i < s.len() ==> is_white_space(#[trigger] s[i]),
        b == 0 || !is_white_space(s[b - 1]),
    decreases s.len(),
{
    if s.len() > 0 && is_white_space(s.last()) {
        let rest = s.drop_last();
        let b = lemma_trim_end(rest);
        assert forall|i: int| b <= i < s.len() implies is_white_space(#[trigger] s[i]) by {
            if i < rest.len() {
                assert(rest[i] == s[i]);
            }
        }
        b
    } else {
        s.len() as int
    }
}

/// A list names `name` if and only if one of the pieces between its separators
/// is `name` once the white space at its edges is gone.
pub proof fn law_a_list_names_its_pieces(list: &str, sep: char, name: &str, r: bool)
    requires
        call_ensures(lists_name, (list, sep, name), r),
    ensures
        r <==> exists|lo: int, hi: int, a: int, b: int|
            #[trigger] piece_names(list@, sep, name@, lo, hi, a, b),
        r == lists(list@, sep, name@),
{
    let s = list@;
    if r {
        let (lo, hi) = choose|lo: int, hi: int| #[trigger]
            is_piece(s, sep, lo, hi) && trim(s.subrange(lo, hi)) == name@;
        let piece = s.subrange(lo, hi);
        let a = lemma_trim_start(piece);
        lemma_trim_start_at(piece, a);
        let rest = piece.skip(a);
        let b = lemma_trim_end(rest);
        lemma_trim_end_at(rest, b);
        assert(rest.take(b) =~= s.subrange(lo + a, lo + a + b));
        assert forall|i: int| lo <= i < lo + a || lo + a + b <= i < hi implies is_white_space(
            #[trigger] s[i],
        ) by {
            if i < lo + a {
                assert(piece[i - lo] == s[i]);
            } else {
                assert(rest[i - lo - a] == s[i]);
            }
        }
        if b > 0 {
            assert(rest[b - 1] == s[lo + a + b - 1]);
            assert(a < piece.len());
            assert(piece[a] == s[lo + a]);
        }
        assert(piece_names(s, sep, name@, lo, hi, lo + a, lo + a + b));
    }
    if exists|lo: int, hi: int, a: int, b: int|
        #[trigger] piece_names(s, sep, name@, lo, hi, a, b) {
        let (lo, hi, a, b) = choose|lo: int, hi: int, a: int, b: int|
            #[trigger] piece_names(s, sep, name@, lo, hi, a, b);
        let piece = s.subrange(lo, hi);
        assert(is_piece(s, sep, lo, hi));
        if a < b {
            assert forall|i: int| 0 <= i < a - lo implies is_white_space(#[trigger] piece[i]) by {
                assert(piece[i] == s[lo + i]);
            }
            assert(piece[a - lo] == s[a]);
            lemma_trim_start_at(piece, a - lo);
            let rest = piece.skip(a - lo);
            assert forall|i: int| b - a <= i < rest.len() implies is_white_space(
                #[trigger] rest[i],
            ) by {
                assert(rest[i] == s[a + i]);
            }
            assert(rest[b - a - 1] == s[b - 1]);
            lemma_trim_end_at(rest, b - a);
            assert(rest.take(b - a) =~= s.subrange(a, b));
        } else {
            assert forall|i: int| 0 <= i < piece.len() implies is_white_space(
                #[trigger] piece[i],
            ) by {
                assert(piece[i] == s[lo + i]);
            }
            lemma_trim_start_at(piece, piece.len() as int);
            assert(piece.skip(piece.len() as int) =~= Seq::<char>::empty());
            assert(s.subrange(a, b) =~= Seq::<char>::empty());
            assert(trim_end(Seq::<char>::empty()) =~= Seq::<char>::empty());
        }
        assert(trim(piece) == name@);
    }
}

/// `c` is one of ASCII's five characters of white space.
pub open spec fn ascii_gap(c: char) -> bool {
    c == '\u{9}' || c == '\u{A}' || c == '\u{C}' || c == '\u{D}' || c == '\u{20}'
}

/// `text[lo..hi]` is a longest run without white space, and is `name`.
pub open spec fn word_names(text: Seq<char>, name: Seq<char>, lo: int, hi: int) -> bool {
    &&& 0 <= lo < hi <= text.len()
    &&& lo == 0 || ascii_gap(text[lo - 1])
    &&& hi == text.len() || ascii_gap(text[hi])
    &&& forall|i: int| lo <= i < hi ==> !ascii_gap(#[trigger] text[i])
    &&& text.subrange(lo, hi) == name
}

/// A text has a word if and only if it stands in it whole, between white space
/// or ends: no part of a longer word counts.
pub proof fn law_a_text_has_whole_words(text: &str, name: &str, r: bool)
    requires
        call_ensures(names_word, (text, name), r),
    ensures
        r <==> exists|lo: int, hi: int| #[trigger] word_names(text@, name@, lo, hi),
        r == has_word(text@, name@),
{
    if r {
        let (lo, hi) = choose|lo: int, hi: int| #[trigger]
            is_word(text@, lo, hi) && text@.subrange(lo, hi) == name@;
        assert(word_names(text@, name@, lo, hi));
    }
    if exists|lo: int, hi: int| #[trigger] word_names(text@, name@, lo, hi) {
        let (lo, hi) = choose|lo: int, hi: int| #[trigger] word_names(text@, name@, lo, hi);
        assert(is_word(text@, lo, hi));
    }
}

/// A number in decimal has only the digits from 0 to 9, none of which is a zero
/// in front, and reads back as that number.
pub proof fn law_decimals_have_decimal_digits(n: nat)
    ensures
        decimal(n).len() > 0,
        forall|i: int| 0 <= i < decimal(n).len() ==> '0' <= #[trigger] decimal(n)[i] <= '9',
        n > 0 ==> decimal(n)[0] != '0',
        n == 0 ==> decimal(n) == seq!['0'],
        digits_value(decimal(n), 10) == n,
    decreases n,
{
    law_decimal_reads_back(n);
    if n >= 10 {
        law_decimals_have_decimal_digits(n / 10);
        let rest = decimal(n / 10);
        assert forall|i: int| 0 <= i < decimal(n).len() implies '0' <= #[trigger] decimal(n)[i]
            <= '9' by {
            if i < rest.len() {
                assert(decimal(n)[i] == rest[i]);
            }
        }
        assert(decimal(n)[0] == rest[0]);
    }
}

/// A number of one digit is that digit; a longer one in decimal is its tenth
/// followed by its last digit.
pub proof fn law_decimals_are_written_digit_by_digit(n: nat)
    ensures
        decimal(0) == seq!['0'],
        decimal(1) == seq!['1'],
        decimal(2) == seq!['2'],
        decimal(3) == seq!['3'],
        decimal(4) == seq!['4'],
        decimal(5) == seq!['5'],
        decimal(6) == seq!['6'],
        decimal(7) == seq!['7'],
        decimal(8) == seq!['8'],
        decimal(9) == seq!['9'],
        n >= 10 ==> decimal(n) == decimal(n / 10) + decimal(n % 10),
{
}

/// A number of one digit in hexadecimal is that digit; a longer one, or one that
/// is padded, is its sixteenth followed by its last digit.
pub proof fn law_hexadecimals_are_written_digit_by_digit(n: nat, min: nat)
    ensures
        n < 10 ==> hex_digits(n, 1) == decimal(n),
        hex_digits(10, 1) == seq!['a'],
        hex_digits(11, 1) == seq!['b'],
        hex_digits(12, 1) == seq!['c'],
        hex_digits(13, 1) == seq!['d'],
        hex_digits(14, 1) == seq!['e'],
        hex_digits(15, 1) == seq!['f'],
        hex_digits(n, 0) == hex_digits(n, 1),
        min > 1 ==> hex_digits(n, min) == hex_digits(n / 16, (min - 1) as nat) + hex_digits(
            n % 16,
            1,
        ),
        n >= 16 ==> hex_digits(n, 1) == hex_digits(n / 16, 1) + hex_digits(n % 16, 1),
{
}

/// A number in hexadecimal has only the digits from 0 to 9 and from a to f, as
/// many as asked for or as it needs, and reads back as that number.
pub proof fn law_hexadecimals_have_hexadecimal_digits(n: nat, min: nat)
    ensures
        forall|i: int|
            0 <= i < hex_digits(n, min).len() ==> '0' <= #[trigger] hex_digits(n, min)[i] <= '9'
                || 'a' <= hex_digits(n, min)[i] <= 'f',
        hex_digits(n, min).len() >= min,
        hex_digits(n, min).len() >= 1,
        hex_digits(n, min).len() > min && hex_digits(n, min).len() > 1 ==> hex_digits(n, min)[0]
            != '0',
        digits_value(hex_digits(n, min), 16) == n,
    decreases n, min,
{
    law_hex_reads_back(n, min);
    if !(n < 16 && min <= 1) {
        let less = if min > 1 {
            (min - 1) as nat
        } else {
            1
        };
        law_hexadecimals_have_hexadecimal_digits(n / 16, less);
        let rest = hex_digits(n / 16, less);
        assert forall|i: int| 0 <= i < hex_digits(n, min).len() implies '0'
            <= #[trigger] hex_digits(n, min)[i] <= '9' || 'a' <= hex_digits(n, min)[i] <= 'f' by {
            if i < rest.len() {
                assert(hex_digits(n, min)[i] == rest[i]);
            }
        }
        assert(hex_digits(n, min)[0] == rest[0]);
        if rest.len() == 1 && hex_digits(n, min).len() > min {
            assert(n >= 16);
            assert(rest.drop_last() =~= Seq::<char>::empty());
            reveal_with_fuel(digits_value, 2);
        }
    }
}

/// Numbers are appended behind what is there: in decimal, with a minus sign
/// where negative, and in hexadecimal behind `0x`.
pub proof fn law_numbers_are_appended(
    a: &mut String,
    b: &mut String,
    c: &mut String,
    n: u32,
    m: i32,
    min: u32,
)
    requires
        call_ensures(push_decimal, (a, n), ()),
        call_ensures(push_signed, (b, m), ()),
        call_ensures(push_hex, (c, n, min), ()),
    ensures
        final(a)@ == old(a)@ + decimal(n as nat),
        m >= 0 ==> final(b)@ == old(b)@ + decimal(m as nat),
        m < 0 ==> final(b)@ == old(b)@.push('-') + decimal((-m) as nat),
        final(c)@ == old(c)@.push('0').push('x') + hex_digits(n as nat, min as nat),
{
    assert(old(b)@ + (seq!['-'] + decimal((-m) as nat)) =~= old(b)@.push('-') + decimal(
        (-m) as nat,
    ));
    assert(old(c)@ + (seq!['0', 'x'] + hex_digits(n as nat, min as nat)) =~= old(c)@.push('0').push(
        'x',
    ) + hex_digits(n as nat, min as nat));
}

} // verus!
