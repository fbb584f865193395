//! Text as sequences of characters: the characters of a string, ASCII case,
//! and the words between runs of whitespace.

use vstd::prelude::*;

verus! {

/// Whether a character is whitespace: whether Unicode gives it the property
/// `White_Space`. These are the tab, the line feed, the vertical tab, the
/// form feed and the carriage return, the space, the next-line control, the
/// no-break space, the Ogham space mark, the spaces of fixed width from the
/// en quad to the hair space, the line and the paragraph separator, the
/// narrow no-break space, the medium mathematical space and the ideographic
/// space.
pub open spec fn is_white_space(c: char) -> bool {
    ||| '\u{9}' <= c <= '\u{D}'
    ||| c == '\u{20}'
    ||| c == '\u{85}'
    ||| c == '\u{A0}'
    ||| c == '\u{1680}'
    ||| '\u{2000}' <= c <= '\u{200A}'
    ||| c == '\u{2028}'
    ||| c == '\u{2029}'
    ||| c == '\u{202F}'
    ||| c == '\u{205F}'
    ||| c == '\u{3000}'
}

/// `char::is_whitespace`, which tells whether a character has the Unicode
/// property `White_Space`. Claimed: it is true of the characters listed in
/// `is_white_space` and of no other.
pub assume_specification[ char::is_whitespace ](c: char) -> (b: bool)
    ensures
        b == is_white_space(c),
;

/// The character with an ASCII capital letter turned into its small letter,
/// and any other character unchanged.
pub open spec fn ascii_lower(c: char) -> char {
    if 'A' <= c <= 'Z' {
        ((c as u8) + 32) as char
    } else {
        c
    }
}

/// Whether two texts are the same but for the case of their ASCII letters.
pub open spec fn same_ignoring_ascii_case(a: Seq<char>, b: Seq<char>) -> bool {
    &&& a.len() == b.len()
    &&& forall|i: int| 0 <= i < a.len() ==> ascii_lower(#[trigger] a[i]) == ascii_lower(b[i])
}

/// Whether position `i` of a text is marked as whitespace. Positions without
/// a mark are not.
pub open spec fn space_at(space: Seq<bool>, i: int) -> bool {
    0 <= i < space.len() && space[i]
}

/// Where the run of unmarked positions ends that begins at `from`: the first
/// marked position from there on, or the end of the text.
pub open spec fn word_end(len: int, space: Seq<bool>, from: int) -> int
    decreases len - from,
{
    if from >= len || space_at(space, from) {
        from
    } else {
        word_end(len, space, from + 1)
    }
}

/// The words of a text from position `from` on, given which positions are
/// whitespace.
pub open spec fn words_from(s: Seq<char>, space: Seq<bool>, from: int) -> Seq<Seq<char>>
    decreases s.len() - from,
    via words_from_decreases
{
    if from < 0 || from >= s.len() {
        Seq::empty()
    } else if space_at(space, from) {
        words_from(s, space, from + 1)
    } else {
        seq![s.subrange(from, word_end(s.len() as int, space, from))] + words_from(
            s,
            space,
            word_end(s.len() as int, space, from),
        )
    }
}

#[via_fn]
proof fn words_from_decreases(s: Seq<char>, space: Seq<bool>, from: int) {
    lemma_word_end_bounds(s.len() as int, space, from);
}

/// The words of a text, given which of its positions are whitespace: the
/// longest runs of other positions, in order. Whitespace before, between and
/// after them counts for nothing.
pub open spec fn words_marked(s: Seq<char>, space: Seq<bool>) -> Seq<Seq<char>> {
    words_from(s, space, 0)
}

/// For each position of a text, whether its character is whitespace.
pub open spec fn white_space_of(s: Seq<char>) -> Seq<bool> {
    Seq::new(s.len(), |i: int| is_white_space(s[i]))
}

/// The words of a text: its longest runs of characters that are not
/// whitespace, in order.
pub open spec fn words(s: Seq<char>) -> Seq<Seq<char>> {
    words_marked(s, white_space_of(s))
}

/// The views of some strings, one for one.
pub open spec fn views(v: Seq<String>) -> Seq<Seq<char>> {
    Seq::new(v.len(), |i: int| v[i]@)
}

/// A word ends at or after its beginning and within the text, and a word
/// that begins at an unmarked position is not empty.
pub proof fn lemma_word_end_bounds(len: int, space: Seq<bool>, from: int)
    ensures
        from <= word_end(len, space, from),
        from <= len ==> word_end(len, space, from) <= len,
        from < len && !space_at(space, from) ==> from < word_end(len, space, from),
    decreases len - from,
{
    if !(from >= len || space_at(space, from)) {
        lemma_word_end_bounds(len, space, from + 1);
    }
}

/// The characters of a string, in order.
pub fn chars_of(s: &str) -> (v: Vec<char>)
    ensures
        v@ == s@,
{
    let mut v: Vec<char> = Vec::new();
    for c in it: s.chars()
        invariant
            v@ == it.seq().take(it.index() as int),
            it.seq() == s@,
    {
        v.push(c);
    }
    v
}

/// The small letter of an ASCII capital letter; any other character as it
/// is.
pub fn to_ascii_lower(c: char) -> (l: char)
    ensures
        l == ascii_lower(c),
{
    if c >= 'A' && c <= 'Z' {
        ((c as u8) + 32) as char
    } else {
        c
    }
}

/// Whether two strings are the same but for the case of their ASCII letters.
pub fn eq_ignore_ascii_case(a: &str, b: &str) -> (same: bool)
    ensures
        same == same_ignoring_ascii_case(a@, b@),
{
    let x = chars_of(a);
    let y = chars_of(b);
    if x.len() != y.len() {
        return false;
    }
    let mut i: usize = 0;
    while i < x.len()
        invariant
            i <= x.len(),
            x.len() == y.len(),
            x@ == a@,
            y@ == b@,
            forall|k: int| 0 <= k < i ==> ascii_lower(#[trigger] x@[k]) == ascii_lower(y@[k]),
        decreases x.len() - i,
    {
        if to_ascii_lower(x[i]) != to_ascii_lower(y[i]) {
            return false;
        }
        i = i + 1;
    }
    true
}

/// Marks the whitespace among some characters.
pub fn mark_white_space(chars: &Vec<char>) -> (space: Vec<bool>)
    ensures
        space@ == white_space_of(chars@),
{
    let mut space: Vec<bool> = Vec::new();
    let mut i: usize = 0;
    while i < chars.len()
        invariant
            i <= chars.len(),
            space@ =~= white_space_of(chars@.take(i as int)),
        decreases chars.len() - i,
    {
        space.push(chars[i].is_whitespace());
        i = i + 1;
        assert(chars@.take(i as int).len() == i);
    }
    assert(chars@.take(i as int) =~= chars@);
    space
}

/// Splits a string into its words, given which of its characters are
/// whitespace. A character without a mark is taken for part of a word.
pub fn split_marked(input: &str, space: &Vec<bool>) -> (out: Vec<String>)
    ensures
        views(out@) == words_marked(input@, space@),
{
    let len = input.unicode_len();
    let mut out: Vec<String> = Vec::new();
    let mut i: usize = 0;
    assert(views(out@) =~= Seq::<Seq<char>>::empty());
    while i < len
        invariant
            i <= len,
            len == input@.len(),
            words_marked(input@, space@) =~= views(out@) + words_from(input@, space@, i as int),
        decreases len - i,
    {
        if i < space.len() && space[i] {
            i = i + 1;
        } else {
            let start = i;
            while i < len && !(i < space.len() && space[i])
                invariant
                    start <= i <= len,
                    start < len,
                    len == input@.len(),
                    !space_at(space@, start as int),
                    word_end(len as int, space@, start as int) == word_end(
                        len as int,
                        space@,
                        i as int,
                    ),
                decreases len - i,
            {
                i = i + 1;
            }
            let word = String::from_str(input.substring_char(start, i));
            assert(views(out@.push(word)) =~= views(out@) + seq![word@]);
            out.push(word);
        }
    }
    out
}

/// Splits a string into its words.
pub fn split_words(input: &str) -> (out: Vec<String>)
    ensures
        views(out@) == words(input@),
{
    let chars = chars_of(input);
    let space = mark_white_space(&chars);
    split_marked(input, &space)
}

/// `String::push`: appends the character to the end of the string.
pub assume_specification[ String::push ](s: &mut String, c: char)
    ensures
        final(s)@ == old(s)@.push(c),
;

/// The character of a decimal digit.
pub open spec fn digit(d: int) -> char
    recommends
        0 <= d < 10,
{
    (('0' as u8) + d) as char
}

/// A natural number in decimal, without leading zeros.
pub open spec fn decimal_nat(n: nat) -> Seq<char>
    decreases n,
{
    if n < 10 {
        seq![digit(n as int)]
    } else {
        decimal_nat(n / 10).push(digit((n % 10) as int))
    }
}

/// An integer in decimal, with a minus sign when it is negative.
pub open spec fn decimal(n: int) -> Seq<char> {
    if n < 0 {
        seq!['-'] + decimal_nat((-n) as nat)
    } else {
        decimal_nat(n as nat)
    }
}

/// Appends a natural number in decimal.
pub fn push_decimal_nat(s: &mut String, n: u64)
    ensures
        final(s)@ == old(s)@ + decimal_nat(n as nat),
    decreases n,
{
    if n >= 10 {
        push_decimal_nat(s, n / 10);
    }
    let d: u8 = (n % 10) as u8;
    s.push((('0' as u8) + d) as char);
    assert(s@ =~= old(s)@ + decimal_nat(n as nat));
}

/// Appends an integer in decimal.
pub fn push_decimal(s: &mut String, n: i64)
    ensures
        final(s)@ == old(s)@ + decimal(n as int),
{
    if n < 0 {
        s.push('-');
        let magnitude: u64 = ((-(n + 1)) as u64) + 1;
        push_decimal_nat(s, magnitude);
        assert(s@ =~= old(s)@ + decimal(n as int));
    } else {
        push_decimal_nat(s, n as u64);
    }
}

} // verus!
