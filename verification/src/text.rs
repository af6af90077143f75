//! Character sequences: the text operations that commands and messages are
//! built with.
use vstd::prelude::*;
use vstd::string::*;

verus! {

/// `String::push` appends one character.
pub assume_specification[ String::push ](s: &mut String, c: char)
    ensures
        final(s)@ == old(s)@.push(c),
;

/// The digit that stands for `d`, for `d` below ten.
pub open spec fn digit(d: nat) -> char {
    (('0' as nat) + d) as char
}

/// `n` in base ten, without leading zeros.
pub open spec fn decimal(n: nat) -> Seq<char>
    decreases n,
{
    if n < 10 {
        seq![digit(n)]
    } else {
        decimal(n / 10).push(digit(n % 10))
    }
}

/// `n` in base ten, with a minus sign where it is negative.
pub open spec fn signed_decimal(n: int) -> Seq<char> {
    if n < 0 {
        seq!['-'] + decimal((-n) as nat)
    } else {
        decimal(n as nat)
    }
}

/// The pieces one after another, with `separator` between each two.
pub open spec fn joined(parts: Seq<Seq<char>>, separator: Seq<char>) -> Seq<char>
    decreases parts.len(),
{
    if parts.len() == 0 {
        Seq::empty()
    } else if parts.len() == 1 {
        parts[0]
    } else {
        joined(parts.drop_last(), separator) + separator + parts.last()
    }
}

/// Whether `text` ends in `suffix`.
pub open spec fn has_suffix(text: Seq<char>, suffix: Seq<char>) -> bool {
    &&& suffix.len() <= text.len()
    &&& text.skip(text.len() - suffix.len()) == suffix
}

/// The characters with the Unicode property `White_Space`.
pub open spec fn white_space(c: char) -> bool {
    ||| '\u{9}' <= c <= '\u{d}'
    ||| c == '\u{20}'
    ||| c == '\u{85}'
    ||| c == '\u{a0}'
    ||| c == '\u{1680}'
    ||| '\u{2000}' <= c <= '\u{200a}'
    ||| c == '\u{2028}'
    ||| c == '\u{2029}'
    ||| c == '\u{202f}'
    ||| c == '\u{205f}'
    ||| c == '\u{3000}'
}

/// The maximal runs of characters that are not white space, in order.
pub open spec fn words(text: Seq<char>) -> Seq<Seq<char>>
    decreases text.len(),
{
    if text.len() == 0 {
        Seq::empty()
    } else {
        let before = words(text.drop_last());
        if white_space(text.last()) {
            before
        } else if in_word(text.drop_last()) {
            before.drop_last().push(before.last().push(text.last()))
        } else {
            before.push(seq![text.last()])
        }
    }
}

/// Whether `text` breaks off inside a word.
pub open spec fn in_word(text: Seq<char>) -> bool {
    text.len() > 0 && !white_space(text.last())
}

/// A decimal digit as a character.
fn digit_char(d: u64) -> (c: char)
    requires
        d < 10,
    ensures
        c == digit(d as nat),
{
    ('0' as u8 + d as u8) as char
}

/// Writes `n` in base ten.
pub fn format_decimal(n: u64) -> (s: String)
    ensures
        s@ == decimal(n as nat),
    decreases n,
{
    if n < 10 {
        let mut s = String::new();
        s.push(digit_char(n));
        assert(s@ =~= seq![digit(n as nat)]);
        s
    } else {
        let mut s = format_decimal(n / 10);
        s.push(digit_char(n % 10));
        s
    }
}

/// Writes `n` in base ten, signed.
pub fn format_signed(n: i32) -> (s: String)
    ensures
        s@ == signed_decimal(n as int),
{
    if n < 0 {
        let mut s = String::new();
        s.push('-');
        s.append(format_decimal((-(n as i64)) as u64).as_str());
        assert(s@ =~= seq!['-'] + decimal((-n) as nat));
        s
    } else {
        format_decimal(n as u64)
    }
}

/// The characters of a string slice.
pub fn chars_of(text: &str) -> (v: Vec<char>)
    ensures
        v@ == text@,
{
    let mut v: Vec<char> = Vec::new();
    for c in it: text.chars()
        invariant
            v@ == text@.take(it.index()),
            it.seq() == text@,
    {
        v.push(c);
        assert(v@ =~= text@.take(it.index() + 1));
    }
    assert(text@.take(text@.len() as int) =~= text@);
    v
}

/// Whether two string slices hold the same text.
pub fn same_text(a: &str, b: &str) -> (r: bool)
    ensures
        r == (a@ == b@),
{
    String::from_str(a) == String::from_str(b)
}

/// Whether `text` ends in `suffix`.
pub fn ends_with(text: &str, suffix: &str) -> (r: bool)
    ensures
        r == has_suffix(text@, suffix@),
{
    let t = chars_of(text);
    let s = chars_of(suffix);
    if s.len() > t.len() {
        return false;
    }
    let start: usize = t.len() - s.len();
    let mut i: usize = 0;
    while i < s.len()
        invariant
            t@ == text@,
            s@ == suffix@,
            start + s.len() == t.len(),
            i <= s@.len(),
            forall|k: int| 0 <= k < i ==> t@[start + k] == s@[k],
        decreases s@.len() - i,
    {
        if t[start + i] != s[i] {
            proof {
                assert(text@.skip(start as int)[i as int] == t@[start + i]);
            }
            return false;
        }
        i = i + 1;
    }
    assert(text@.skip(start as int) =~= suffix@);
    true
}

/// Joins the pieces, with `separator` between each two.
pub fn join(parts: &Vec<String>, separator: &str) -> (s: String)
    ensures
        s@ == joined(parts.deep_view(), separator@),
{
    let mut s = String::new();
    let ghost all = parts.deep_view();
    assert(all.take(0) =~= Seq::<Seq<char>>::empty());
    for i in 0..parts.len()
        invariant
            all == parts.deep_view(),
            s@ == joined(all.take(i as int), separator@),
    {
        if i > 0 {
            s.append(separator);
        }
        s.append(parts[i].as_str());
        proof {
            let upto = all.take(i + 1);
            assert(upto.drop_last() =~= all.take(i as int));
            assert(upto.last() == parts[i as int]@);
            if i == 0 {
                assert(s@ =~= parts[0]@);
            }
        }
    }
    assert(all.take(all.len() as int) =~= all);
    s
}

/// Copies the pieces into owned strings.
pub fn owned(parts: &[&str]) -> (v: Vec<String>)
    ensures
        v.deep_view() == parts.deep_view(),
{
    let mut v: Vec<String> = Vec::new();
    append_owned(&mut v, parts);
    assert(v.deep_view() =~= parts.deep_view());
    v
}

/// Appends copies of the pieces to `v`.
pub fn append_owned(v: &mut Vec<String>, parts: &[&str])
    ensures
        final(v).deep_view() == old(v).deep_view() + parts.deep_view(),
{
    for i in 0..parts.len()
        invariant
            v.deep_view() =~= old(v).deep_view() + parts.deep_view().take(i as int),
    {
        let ghost before = v.deep_view();
        v.push(String::from_str(parts[i]));
        assert(v.deep_view() =~= before.push(parts.deep_view()[i as int]));
    }
    assert(parts.deep_view().take(parts.deep_view().len() as int) =~= parts.deep_view());
}

/// Borrows each piece.
pub fn borrowed(parts: &Vec<String>) -> (v: Vec<&str>)
    ensures
        v.deep_view() == parts.deep_view(),
{
    let mut v: Vec<&str> = Vec::new();
    for i in 0..parts.len()
        invariant
            v.deep_view() =~= parts.deep_view().take(i as int),
    {
        let ghost before = v.deep_view();
        v.push(parts[i].as_str());
        assert(v.deep_view() =~= before.push(parts.deep_view()[i as int]));
    }
    assert(parts.deep_view().take(parts.deep_view().len() as int) =~= parts.deep_view());
    v
}

/// Appends the text to the list of pieces.
pub fn push_text(v: &mut Vec<String>, text: &str)
    ensures
        final(v).deep_view() == old(v).deep_view().push(text@),
{
    v.push(String::from_str(text));
    assert(v.deep_view() =~= old(v).deep_view().push(text@));
}

/// Whether one of the pieces is `text`.
pub fn contains_text(parts: &[&str], text: &str) -> (r: bool)
    ensures
        r == parts.deep_view().contains(text@),
{
    for i in 0..parts.len()
        invariant
            forall|k: int| 0 <= k < i ==> parts.deep_view()[k] != text@,
    {
        if same_text(parts[i], text) {
            assert(parts.deep_view()[i as int] == text@);
            return true;
        }
    }
    false
}

/// Whether `c` is white space.
pub fn is_white_space(c: char) -> (r: bool)
    ensures
        r == white_space(c),
{
    ('\u{9}' <= c && c <= '\u{d}') || c == '\u{20}' || c == '\u{85}' || c == '\u{a0}' || c
        == '\u{1680}' || ('\u{2000}' <= c && c <= '\u{200a}') || c == '\u{2028}' || c == '\u{2029}'
        || c == '\u{202f}' || c == '\u{205f}' || c == '\u{3000}'
}

/// Splits `text` at white space.
pub fn split_words(text: &str) -> (v: Vec<String>)
    ensures
        v.deep_view() == words(text@),
{
    let chars = chars_of(text);
    let mut v: Vec<String> = Vec::new();
    let mut word = String::new();
    let mut inside = false;
    assert(text@.take(0) =~= Seq::<char>::empty());
    for i in 0..chars.len()
        invariant
            chars@ == text@,
            inside == in_word(text@.take(i as int)),
            inside ==> words(text@.take(i as int)) == v.deep_view().push(word@),
            !inside ==> words(text@.take(i as int)) == v.deep_view() && word@ == Seq::<
                char,
            >::empty(),
    {
        let c = chars[i];
        let ghost upto = text@.take(i + 1);
        proof {
            assert(upto.drop_last() =~= text@.take(i as int));
            assert(upto.last() == c);
        }
        if is_white_space(c) {
            if inside {
                let ghost before = v.deep_view();
                let ghost done = word@;
                v.push(word);
                assert(v.deep_view() =~= before.push(done));
                word = String::new();
            }
            inside = false;
        } else {
            let ghost before = word@;
            word.push(c);
            proof {
                if inside {
                    let ws = words(text@.take(i as int));
                    assert(ws.drop_last() =~= v.deep_view());
                    assert(ws.last() == before);
                } else {
                    assert(word@ =~= seq![c]);
                }
            }
            inside = true;
        }
    }
    assert(text@.take(text@.len() as int) =~= text@);
    if inside {
        let ghost before = v.deep_view();
        let ghost done = word@;
        v.push(word);
        assert(v.deep_view() =~= before.push(done));
    }
    v
}

} // verus!
