//! Splitting a command line into whitespace-separated words, and reading
//! hexadecimal numbers.

use vstd::prelude::*;
use vstd::string::*;

verus! {

/// The characters with the Unicode `White_Space` property.
pub open spec fn is_white_space(c: char) -> bool {
    ||| '\t' <= c <= '\r'
    ||| c == ' '
    ||| c == '\u{85}'
    ||| c == '\u{a0}'
    ||| c == '\u{1680}'
    ||| '\u{2000}' <= c <= '\u{200a}'
    ||| c == '\u{2028}'
    ||| c == '\u{2029}'
    ||| c == '\u{202f}'
    ||| c == '\u{205f}'
    ||| c == '\u{3000}'
}

/// Whether `c` is a white space character.
pub fn is_space(c: char) -> (b: bool)
    ensures
        b == is_white_space(c),
{
    ('\t' <= c && c <= '\r') || c == ' ' || c == '\u{85}' || c == '\u{a0}' || c == '\u{1680}' || (
    '\u{2000}' <= c && c <= '\u{200a}') || c == '\u{2028}' || c == '\u{2029}' || c == '\u{202f}'
        || c == '\u{205f}' || c == '\u{3000}'
}

/// The first index at or after `i` that does not hold white space, or the
/// length of `s` if there is none.
pub open spec fn skip_space(s: Seq<char>, i: int) -> int
    decreases s.len() - i,
{
    if i >= s.len() {
        i
    } else if is_white_space(s[i]) {
        skip_space(s, i + 1)
    } else {
        i
    }
}

/// The first index at or after `i` that holds white space, or the length of
/// `s` if there is none.
pub open spec fn word_end(s: Seq<char>, i: int) -> int
    decreases s.len() - i,
{
    if i >= s.len() {
        i
    } else if is_white_space(s[i]) {
        i
    } else {
        word_end(s, i + 1)
    }
}

/// Where the next word of `s` at or after `pos` starts and ends, if any.
pub open spec fn next_word(s: Seq<char>, pos: int) -> Option<(int, int)> {
    let start = skip_space(s, pos);
    if start >= s.len() {
        None
    } else {
        Some((start, word_end(s, start)))
    }
}

proof fn lemma_skip_space_bounds(s: Seq<char>, i: int)
    requires
        0 <= i <= s.len(),
    ensures
        i <= skip_space(s, i) <= s.len(),
        skip_space(s, i) < s.len() ==> !is_white_space(s[skip_space(s, i)]),
        forall|k: int| i <= k < skip_space(s, i) ==> is_white_space(#[trigger] s[k]),
    decreases s.len() - i,
{
    if i < s.len() && is_white_space(s[i]) {
        lemma_skip_space_bounds(s, i + 1);
    }
}

proof fn lemma_word_end_bounds(s: Seq<char>, i: int)
    requires
        0 <= i <= s.len(),
    ensures
        i <= word_end(s, i) <= s.len(),
        forall|k: int| i <= k < word_end(s, i) ==> !is_white_space(#[trigger] s[k]),
        word_end(s, i) < s.len() ==> is_white_space(s[word_end(s, i)]),
    decreases s.len() - i,
{
    if i < s.len() && !is_white_space(s[i]) {
        lemma_word_end_bounds(s, i + 1);
    }
}

/// The next word after `pos` is the first maximal run of characters other
/// than white space: only white space comes before it, it is not empty,
/// holds no white space, and ends at white space or at the end of the text.
/// When there is none, only white space follows `pos`.
pub proof fn lemma_next_word_is_maximal_run(s: Seq<char>, pos: int)
    requires
        0 <= pos <= s.len(),
    ensures
        match next_word(s, pos) {
            Some((a, b)) => {
                &&& pos <= a < b <= s.len()
                &&& forall|k: int| pos <= k < a ==> is_white_space(#[trigger] s[k])
                &&& forall|k: int| a <= k < b ==> !is_white_space(#[trigger] s[k])
                &&& b < s.len() ==> is_white_space(s[b])
            },
            None => forall|k: int| pos <= k < s.len() ==> is_white_space(#[trigger] s[k]),
        },
{
    lemma_skip_space_bounds(s, pos);
    let a = skip_space(s, pos);
    if a < s.len() {
        lemma_word_end_bounds(s, a);
    }
}

/// The white space that separates words is the Unicode `White_Space` list,
/// character by character: tab, line feed, vertical tab, form feed, carriage
/// return, space, next line, no-break space, ogham space mark, the spaces
/// from en quad to hair space, line and paragraph separators, narrow
/// no-break space, medium mathematical space and ideographic space.
pub proof fn lemma_white_space_is_the_unicode_list(c: char)
    ensures
        is_white_space(c) <==> ({
            ||| c == '\t'
            ||| c == '\n'
            ||| c == '\u{b}'
            ||| c == '\u{c}'
            ||| c == '\r'
            ||| c == ' '
            ||| c == '\u{85}'
            ||| c == '\u{a0}'
            ||| c == '\u{1680}'
            ||| c == '\u{2000}'
            ||| c == '\u{2001}'
            ||| c == '\u{2002}'
            ||| c == '\u{2003}'
            ||| c == '\u{2004}'
            ||| c == '\u{2005}'
            ||| c == '\u{2006}'
            ||| c == '\u{2007}'
            ||| c == '\u{2008}'
            ||| c == '\u{2009}'
            ||| c == '\u{200a}'
            ||| c == '\u{2028}'
            ||| c == '\u{2029}'
            ||| c == '\u{202f}'
            ||| c == '\u{205f}'
            ||| c == '\u{3000}'
        }),
{
}

/// Past `j`, `u` holds only white space.
pub open spec fn all_space_from(u: Seq<char>, j: int) -> bool {
    forall|k: int| j <= k < u.len() ==> is_white_space(#[trigger] u[k])
}

proof fn lemma_skip_all_space(u: Seq<char>, j: int)
    requires
        0 <= j <= u.len(),
        all_space_from(u, j),
    ensures
        skip_space(u, j) == u.len(),
    decreases u.len() - j,
{
    if j < u.len() {
        lemma_skip_all_space(u, j + 1);
    }
}

proof fn lemma_skip_space_append(s: Seq<char>, t: Seq<char>, i: int)
    requires
        0 <= i <= s.len(),
        all_space_from(t, 0),
    ensures
        skip_space(s, i) < s.len() ==> skip_space(s + t, i) == skip_space(s, i),
        skip_space(s, i) >= s.len() ==> skip_space(s + t, i) >= (s + t).len(),
    decreases s.len() - i,
{
    if i == s.len() {
        assert(all_space_from(s + t, i));
        lemma_skip_all_space(s + t, i);
    } else {
        assert((s + t)[i] == s[i]);
        if is_white_space(s[i]) {
            lemma_skip_space_append(s, t, i + 1);
        }
    }
}

proof fn lemma_word_end_append(s: Seq<char>, t: Seq<char>, a: int)
    requires
        0 <= a <= s.len(),
        all_space_from(t, 0),
    ensures
        word_end(s + t, a) == word_end(s, a),
    decreases s.len() - a,
{
    if a == s.len() {
        if t.len() > 0 {
            assert((s + t)[a] == t[0]);
        }
    } else {
        assert((s + t)[a] == s[a]);
        if !is_white_space(s[a]) {
            lemma_word_end_append(s, t, a + 1);
        }
    }
}

/// White space after the end of a text does not change where its words are.
pub proof fn lemma_next_word_ignores_trailing_space(s: Seq<char>, t: Seq<char>, pos: int)
    requires
        0 <= pos <= s.len(),
        all_space_from(t, 0),
    ensures
        next_word(s + t, pos) == next_word(s, pos),
        match next_word(s, pos) {
            Some((a, b)) => pos <= a < b <= s.len() && (s + t).subrange(a, b) == s.subrange(a, b),
            None => true,
        },
{
    lemma_skip_space_append(s, t, pos);
    lemma_next_word_is_maximal_run(s, pos);
    lemma_skip_space_bounds(s, pos);
    let a = skip_space(s, pos);
    if a < s.len() {
        lemma_word_end_append(s, t, a);
        lemma_word_end_bounds(s, a);
        assert((s + t).subrange(a, word_end(s, a)) =~= s.subrange(a, word_end(s, a)));
    }
}

/// A cursor over the whitespace-separated words of a text.
pub struct Words<'a> {
    text: &'a str,
    len: usize,
    pos: usize,
}

impl<'a> Words<'a> {
    /// The text being split.
    pub closed spec fn text(&self) -> Seq<char> {
        self.text@
    }

    /// Where in the text the next search for a word starts.
    pub closed spec fn pos(&self) -> int {
        self.pos as int
    }

    /// The cursor's own consistency: the position lies within the text.
    pub closed spec fn wf(&self) -> bool {
        &&& self.len == self.text@.len()
        &&& self.pos <= self.len
    }

    /// A cursor at the start of `text`.
    pub fn new(text: &'a str) -> (w: Words<'a>)
        ensures
            w.wf(),
            w.text() == text@,
            w.pos() == 0,
    {
        Words { text: text, len: text.unicode_len(), pos: 0 }
    }

    /// The next word, if any, and the cursor moved past it.
    pub fn next(&mut self) -> (r: Option<&'a str>)
        requires
            old(self).wf(),
        ensures
            final(self).wf(),
            final(self).text() == old(self).text(),
            match next_word(old(self).text(), old(self).pos()) {
                None => r.is_none() && final(self).pos() == old(self).text().len(),
                Some((a, b)) => r.is_some() && r.unwrap()@ == old(self).text().subrange(a, b)
                    && final(self).pos() == b,
            },
    {
        let ghost s = self.text@;
        proof {
            lemma_skip_space_bounds(s, self.pos as int);
        }
        let mut i = self.pos;
        while i < self.len && is_space(self.text.get_char(i))
            invariant
                self.wf(),
                s == self.text@,
                old(self).pos <= i <= self.len,
                skip_space(s, i as int) == skip_space(s, old(self).pos as int),
            decreases self.len - i,
        {
            i = i + 1;
        }
        if i >= self.len {
            self.pos = self.len;
            return None;
        }
        let start = i;
        proof {
            lemma_word_end_bounds(s, start as int);
        }
        while i < self.len && !is_space(self.text.get_char(i))
            invariant
                self.wf(),
                s == self.text@,
                start <= i <= self.len,
                word_end(s, i as int) == word_end(s, start as int),
            decreases self.len - i,
        {
            i = i + 1;
        }
        self.pos = i;
        Some(self.text.substring_char(start, i))
    }
}

/// Whether `a` and `b` hold the same characters.
pub fn same_text(a: &str, b: &str) -> (r: bool)
    ensures
        r == (a@ == b@),
{
    let n = a.unicode_len();
    if n != b.unicode_len() {
        return false;
    }
    let mut i: usize = 0;
    while i < n
        invariant
            n == a@.len(),
            n == b@.len(),
            i <= n,
            forall|k: int| 0 <= k < i ==> a@[k] == b@[k],
        decreases n - i,
    {
        if a.get_char(i) != b.get_char(i) {
            return false;
        }
        i = i + 1;
    }
    assert(a@ =~= b@);
    true
}

/// The value of a hexadecimal digit, either case.
pub open spec fn hex_digit(c: char) -> Option<nat> {
    if '0' <= c <= '9' {
        Some((c as int - '0' as int) as nat)
    } else if 'a' <= c <= 'f' {
        Some((c as int - 'a' as int + 10) as nat)
    } else if 'A' <= c <= 'F' {
        Some((c as int - 'A' as int + 10) as nat)
    } else {
        None
    }
}

/// Every character of `s` is a hexadecimal digit.
pub open spec fn all_hex_digits(s: Seq<char>) -> bool {
    forall|i: int| 0 <= i < s.len() ==> (#[trigger] hex_digit(s[i])) is Some
}

/// The number that the hexadecimal digits `s` spell, most significant first.
pub open spec fn hex_value(s: Seq<char>) -> nat
    decreases s.len(),
{
    if s.len() == 0 {
        0
    } else {
        hex_value(s.drop_last()) * 16 + hex_digit(s.last()).unwrap()
    }
}

/// The 32-bit number that `s` spells in hexadecimal: an optional `+` sign
/// followed by at least one digit and nothing else, with a value that fits.
pub open spec fn hex_u32(s: Seq<char>) -> Option<u32> {
    let digits = if s.len() > 0 && s[0] == '+' {
        s.drop_first()
    } else {
        s
    };
    if digits.len() > 0 && all_hex_digits(digits) && hex_value(digits) <= u32::MAX {
        Some(hex_value(digits) as u32)
    } else {
        None
    }
}

/// The hexadecimal digits are `0` to `9`, `a` to `f` and `A` to `F`, worth
/// 0 to 15 in that order, either case alike; no other character is a digit.
pub proof fn lemma_hex_digit_values(c: char)
    ensures
        hex_digit('0') == Some(0nat),
        hex_digit('1') == Some(1nat),
        hex_digit('2') == Some(2nat),
        hex_digit('3') == Some(3nat),
        hex_digit('4') == Some(4nat),
        hex_digit('5') == Some(5nat),
        hex_digit('6') == Some(6nat),
        hex_digit('7') == Some(7nat),
        hex_digit('8') == Some(8nat),
        hex_digit('9') == Some(9nat),
        hex_digit('a') == Some(10nat),
        hex_digit('b') == Some(11nat),
        hex_digit('c') == Some(12nat),
        hex_digit('d') == Some(13nat),
        hex_digit('e') == Some(14nat),
        hex_digit('f') == Some(15nat),
        hex_digit('A') == Some(10nat),
        hex_digit('B') == Some(11nat),
        hex_digit('C') == Some(12nat),
        hex_digit('D') == Some(13nat),
        hex_digit('E') == Some(14nat),
        hex_digit('F') == Some(15nat),
        (hex_digit(c) is Some) <==> ('0' <= c <= '9' || 'a' <= c <= 'f' || 'A' <= c <= 'F'),
        hex_digit(c) is Some ==> hex_digit(c).unwrap() < 16,
{
}

/// Appending a digit multiplies by 16 and adds the digit's value.
proof fn lemma_hex_value_push(s: Seq<char>, c: char)
    ensures
        hex_value(s.push(c)) == hex_value(s) * 16 + hex_digit(c).unwrap(),
{
    assert(s.push(c).drop_last() =~= s);
}

/// How reading hexadecimal goes, character by character: nothing, or a lone
/// sign, is no number; a leading `+` is dropped; a single digit is its
/// value; appending a digit to a number multiplies it by 16 and adds the
/// digit unless the result no longer fits in 32 bits; appending anything
/// but a digit, or anything to text that is already no number (other than
/// the empty text or a lone sign), gives no number.
pub proof fn lemma_hex_u32_by_characters(s: Seq<char>, c: char)
    ensures
        hex_u32(Seq::empty()) == None::<u32>,
        hex_u32(seq!['+']) == None::<u32>,
        s.len() > 0 && s[0] != '+' ==> hex_u32(seq!['+'] + s) == hex_u32(s),
        hex_digit(c) is Some ==> hex_u32(seq![c]) == Some(hex_digit(c).unwrap() as u32),
        hex_digit(c) is None ==> hex_u32(s.push(c)) == None::<u32>,
        hex_digit(c) is Some && hex_u32(s) is Some ==> hex_u32(s.push(c)) == if hex_u32(s).unwrap()
            * 16 + hex_digit(c).unwrap() <= u32::MAX {
            Some((hex_u32(s).unwrap() * 16 + hex_digit(c).unwrap()) as u32)
        } else {
            None
        },
        s.len() > 0 && s != seq!['+'] && hex_u32(s) is None ==> hex_u32(s.push(c)) == None::<u32>,
{
    let sc = s.push(c);
    let e = Seq::<char>::empty();
    assert(seq![c] =~= e.push(c));
    lemma_hex_value_push(e, c);
    assert(all_hex_digits(seq![c]) == (hex_digit(c) is Some)) by {
        assert(seq![c][0] == c);
    }
    if s.len() > 0 && s[0] != '+' {
        assert((seq!['+'] + s).drop_first() =~= s);
    }
    let digits = if s.len() > 0 && s[0] == '+' { s.drop_first() } else { s };
    let digits_c = if sc.len() > 0 && sc[0] == '+' { sc.drop_first() } else { sc };
    if s.len() > 0 {
        assert(digits_c =~= digits.push(c));
    } else {
        assert(sc =~= seq![c]);
    }
    lemma_hex_value_push(digits, c);
    if hex_digit(c) is None {
        if !(s.len() == 0 && c == '+') {
            assert(digits_c.len() > 0);
            assert(digits_c[digits_c.len() - 1] == c);
            assert(!all_hex_digits(digits_c));
        }
    }
    if hex_digit(c) is Some && hex_u32(s) is Some {
        assert forall|i: int| 0 <= i < digits_c.len() implies (#[trigger] hex_digit(digits_c[i])) is Some by {
            if i < digits.len() {
                assert(digits_c[i] == digits[i]);
            }
        }
    }
    if s.len() > 0 && s != seq!['+'] && hex_u32(s) is None {
        if s[0] == '+' {
            assert(s.len() > 1) by {
                if s.len() == 1 {
                    assert(s =~= seq!['+']);
                }
            }
        }
        assert(digits.len() > 0);
        if !all_hex_digits(digits) {
            let i = choose|i: int| 0 <= i < digits.len() && !(hex_digit(digits[i]) is Some);
            assert(digits_c[i] == digits[i]);
        }
    }
}

/// Reads `s` as a hexadecimal number with `u32::from_str_radix(s, 16)`.
/// Its documentation: an optional `+` sign followed by digits only, where
/// any other character, an empty digit string or a value that does not fit
/// in 32 bits is an error.
#[verifier::external_body]
pub fn parse_hex(s: &str) -> (r: Option<u32>)
    ensures
        r == hex_u32(s@),
{
    u32::from_str_radix(s, 16).ok()
}

} // verus!
