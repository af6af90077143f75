//! What holds of the names, paths and texts that the front end makes and reads.
use vstd::prelude::*;
use vstd::utf8::*;

use crate::clock::timestamp;
use crate::inputs::{section_begins, section_first_begins, section_of};
use crate::nix::NixView;
use crate::path::{behind_last, directory, extended, file_name, path_under, stem, takes_extension};
use crate::roots::known_once;
use crate::text::{decimal, digit, in_word, joined, white_space, words};

verus! {

/// Whether `c` is a decimal digit.
pub open spec fn is_digit(c: char) -> bool {
    '0' <= c <= '9'
}

/// The number that a text of digits stands for.
pub open spec fn number(text: Seq<char>) -> int
    decreases text.len(),
{
    if text.len() == 0 {
        0
    } else {
        10 * number(text.drop_last()) + (text.last() as int - '0' as int)
    }
}

/// A number that is written in base ten reads back as itself.
pub proof fn law_decimal_reads_back(n: nat)
    ensures
        number(decimal(n)) == n,
        decimal(n).len() > 0,
        forall|i: int| 0 <= i < decimal(n).len() ==> is_digit(#[trigger] decimal(n)[i]),
    decreases n,
{
    reveal_with_fuel(number, 2);
    if n < 10 {
        assert(decimal(n).drop_last() =~= Seq::<char>::empty());
    } else {
        law_decimal_reads_back(n / 10);
        assert(decimal(n).drop_last() =~= decimal(n / 10));
        assert(decimal(n).last() == digit(n % 10));
    }
}

/// Different moments have different names.
pub proof fn law_timestamps_differ(secs: u64, nanos: u32, other_secs: u64, other_nanos: u32)
    requires
        timestamp(secs, nanos) == timestamp(other_secs, other_nanos),
    ensures
        secs == other_secs,
        nanos == other_nanos,
{
    let a = decimal(secs as nat);
    let b = decimal(other_secs as nat);
    let one = timestamp(secs, nanos);
    let two = timestamp(other_secs, other_nanos);
    law_decimal_reads_back(secs as nat);
    law_decimal_reads_back(other_secs as nat);
    law_decimal_reads_back(nanos as nat);
    law_decimal_reads_back(other_nanos as nat);
    assert(one[a.len() as int] == '.');
    assert(two[b.len() as int] == '.');
    if a.len() < b.len() {
        assert(two[a.len() as int] == b[a.len() as int]);
    } else if b.len() < a.len() {
        assert(one[b.len() as int] == a[b.len() as int]);
    }
    assert(one.take(a.len() as int) =~= a);
    assert(two.take(b.len() as int) =~= b);
    assert(one.skip(a.len() as int + 1) =~= decimal(nanos as nat));
    assert(two.skip(b.len() as int + 1) =~= decimal(other_nanos as nat));
}

/// The links that keep the shell at different moments stand at different places.
pub proof fn law_shell_links_differ(
    nix: NixView,
    secs: u64,
    nanos: u32,
    other_secs: u64,
    other_nanos: u32,
)
    requires
        nix.shell_link(timestamp(secs, nanos)) == nix.shell_link(
            timestamp(other_secs, other_nanos),
        ),
    ensures
        secs == other_secs,
        nanos == other_nanos,
{
    let one = timestamp(secs, nanos);
    let two = timestamp(other_secs, other_nanos);
    law_decimal_reads_back(secs as nat);
    law_decimal_reads_back(other_secs as nat);
    assert(one[0] == decimal(secs as nat)[0]);
    assert(two[0] == decimal(other_secs as nat)[0]);
    lemma_same_behind(nix.devenv_home_gc, one + "-shell"@, two + "-shell"@);
    assert(one =~= (one + "-shell"@).take(one.len() as int));
    assert(two =~= (two + "-shell"@).take(two.len() as int));
    law_timestamps_differ(secs, nanos, other_secs, other_nanos);
}

/// The links that keep a root of one name at different moments stand at different
/// places.
pub proof fn law_root_links_differ(
    nix: NixView,
    name: Seq<char>,
    secs: u64,
    nanos: u32,
    other_secs: u64,
    other_nanos: u32,
)
    requires
        nix.root_link(name, timestamp(secs, nanos)) == nix.root_link(
            name,
            timestamp(other_secs, other_nanos),
        ),
    ensures
        secs == other_secs,
        nanos == other_nanos,
{
    let one = timestamp(secs, nanos);
    let two = timestamp(other_secs, other_nanos);
    let front = name + "-"@;
    reveal_strlit("-");
    assert((front + one)[0] == (front + two)[0]);
    lemma_same_behind(nix.devenv_dot_gc, front + one, front + two);
    assert(one =~= (front + one).skip(front.len() as int));
    assert(two =~= (front + two).skip(front.len() as int));
    law_timestamps_differ(secs, nanos, other_secs, other_nanos);
}

/// Names that are absolute or not alike, and that come to one path, are the same.
proof fn lemma_same_behind(base: Seq<char>, one: Seq<char>, two: Seq<char>)
    requires
        one.len() > 0,
        two.len() > 0,
        (one[0] == '/') == (two[0] == '/'),
        path_under(base, one) == path_under(base, two),
    ensures
        one == two,
{
    let path = path_under(base, one);
    if one[0] != '/' {
        let front = path.len() - one.len();
        assert(one =~= path.skip(front));
        assert(two =~= path.skip(front));
    }
}

/// A path is given up once at most, and the paths that are given up are those
/// that were named.
pub proof fn law_paths_are_deleted_once(paths: Seq<Option<Seq<char>>>)
    ensures
        known_once(paths).no_duplicates(),
        forall|path: Seq<char>| #[trigger]
            known_once(paths).contains(path) <==> paths.contains(Some(path)),
    decreases paths.len(),
{
    if paths.len() > 0 {
        let less = paths.drop_last();
        let before = known_once(less);
        let after = known_once(paths);
        law_paths_are_deleted_once(less);
        assert(paths =~= less.push(paths.last()));
        assert forall|path: Seq<char>| #[trigger] after.contains(path) <==> paths.contains(
            Some(path),
        ) by {
            if after.contains(path) {
                let i = choose|i: int| 0 <= i < after.len() && after[i] == path;
                if i < before.len() {
                    assert(before.contains(path));
                    let j = choose|j: int| 0 <= j < less.len() && less[j] == Some(path);
                    assert(paths[j] == Some(path));
                } else {
                    assert(paths[paths.len() - 1] == Some(path));
                }
            }
            if paths.contains(Some(path)) {
                let j = choose|j: int| 0 <= j < paths.len() && paths[j] == Some(path);
                if j < less.len() {
                    assert(less[j] == Some(path));
                    assert(before.contains(path));
                    let i = choose|i: int| 0 <= i < before.len() && before[i] == path;
                    assert(after[i] == path);
                } else if before.contains(path) {
                    let i = choose|i: int| 0 <= i < before.len() && before[i] == path;
                    assert(after[i] == path);
                } else {
                    assert(after[before.len() as int] == path);
                }
            }
        }
    } else {
        assert(known_once(paths).len() == 0);
    }
}

proof fn lemma_behind_last(text: Seq<char>, c: char)
    ensures
        0 <= behind_last(text, c) <= text.len(),
        forall|i: int| behind_last(text, c) <= i < text.len() ==> text[i] != c,
        behind_last(text, c) > 0 ==> text[behind_last(text, c) - 1] == c,
    decreases text.len(),
{
    if text.len() > 0 && text.last() != c {
        let less = text.drop_last();
        lemma_behind_last(less, c);
        assert forall|i: int| behind_last(text, c) <= i < text.len() implies text[i] != c by {
            if i < less.len() {
                assert(less[i] == text[i]);
            }
        }
    }
}

/// A lock stands in the directory of what it guards.
pub proof fn law_locks_stand_beside(target: Seq<char>)
    requires
        takes_extension(target),
    ensures
        directory(extended(target, "lock"@)) == directory(target),
{
    reveal_strlit("lock");
    let name = file_name(target);
    let lock = extended(target, "lock"@);
    let d = behind_last(target, '/');
    let e = behind_last(lock, '/');
    lemma_behind_last(target, '/');
    lemma_behind_last(lock, '/');
    lemma_behind_last(name, '.');
    let rest = stem(name) + seq!['.'] + "lock"@;
    assert(lock =~= directory(target) + rest);
    assert forall|i: int| 0 <= i < rest.len() implies rest[i] != '/' by {
        if i < stem(name).len() {
            assert(rest[i] == name[i]);
            assert(name[i] == target[d + i]);
        }
    }
    if e > d {
        assert(lock[e - 1] == rest[e - 1 - d]);
    }
    if d > e {
        assert(lock[d - 1] == target[d - 1]);
    }
    assert(directory(lock) =~= directory(target));
}

/// What is read as the list of inputs is the end of the metadata, within one
/// line.
pub proof fn law_inputs_end_the_text(text: Seq<char>)
    ensures
        section_of(text).len() <= text.len(),
        section_of(text) == text.skip(text.len() - section_of(text).len()),
        !section_of(text).contains('\n'),
{
    reveal_strlit("Inputs:");
    if exists|start: int| section_first_begins(text, start) {
        let start = choose|start: int| section_first_begins(text, start);
        let section = text.skip(start);
        assert forall|i: int| 0 <= i < section.len() implies section[i] != '\n' by {
            if i < "Inputs:"@.len() {
                assert(text.subrange(start, start + "Inputs:"@.len())[i] == text[start + i]);
                assert("Inputs:"@[i] != '\n');
            }
        }
    } else {
        assert(text.skip(text.len() as int) =~= Seq::empty());
    }
}

/// Metadata that ends a line at its end has no list of inputs.
pub proof fn law_no_inputs_before_a_line_feed(text: Seq<char>)
    requires
        text.len() > 0,
        text.last() == '\n',
    ensures
        section_of(text) == Seq::<char>::empty(),
{
    assert forall|start: int| !section_begins(text, start) by {}
}

/// Whether `text` holds no white space.
pub open spec fn solid(text: Seq<char>) -> bool {
    forall|i: int| 0 <= i < text.len() ==> !white_space(#[trigger] text[i])
}

/// No word is empty or holds white space.
pub proof fn law_words_are_solid(text: Seq<char>)
    ensures
        forall|i: int|
            0 <= i < words(text).len() ==> (#[trigger] words(text)[i]).len() > 0 && solid(
                words(text)[i],
            ),
        in_word(text) ==> words(text).len() > 0,
    decreases text.len(),
{
    if text.len() > 0 {
        let less = text.drop_last();
        let before = words(less);
        let after = words(text);
        law_words_are_solid(less);
        assert forall|i: int| 0 <= i < after.len() implies (#[trigger] after[i]).len() > 0 && solid(
            after[i],
        ) by {
            if i < before.len() {
                assert(before[i].len() > 0 && solid(before[i]));
            }
        }
    }
}

/// Behind white space, characters that are not white space make up one more word.
pub proof fn lemma_one_more_word(text: Seq<char>, word: Seq<char>)
    requires
        !in_word(text),
        word.len() > 0,
        solid(word),
    ensures
        words(text + word) == words(text).push(word),
        in_word(text + word),
    decreases word.len(),
{
    let all = text + word;
    assert(all.drop_last() =~= text + word.drop_last());
    if word.len() == 1 {
        assert(text + word.drop_last() =~= text);
        assert(seq![word.last()] =~= word);
    } else {
        lemma_one_more_word(text, word.drop_last());
        let before = words(text + word.drop_last());
        assert(before.drop_last() =~= words(text));
        assert(before.last().push(word.last()) =~= word);
    }
}

/// Paths that are printed one to a line are read back, as long as none is empty
/// or holds white space.
pub proof fn law_lines_are_read_back(lines: Seq<Seq<char>>)
    requires
        forall|i: int| 0 <= i < lines.len() ==> (#[trigger] lines[i]).len() > 0 && solid(lines[i]),
    ensures
        words(joined(lines, "\n"@)) == lines,
        words(joined(lines, "\n"@) + "\n"@) == lines,
    decreases lines.len(),
{
    reveal_strlit("\n");
    let text = joined(lines, "\n"@);
    if lines.len() == 0 {
        assert(words(text) =~= lines);
    } else if lines.len() == 1 {
        assert(text =~= Seq::<char>::empty() + lines[0]);
        lemma_one_more_word(Seq::empty(), lines[0]);
        assert(words(text) =~= lines);
    } else {
        law_lines_are_read_back(lines.drop_last());
        let front = joined(lines.drop_last(), "\n"@) + "\n"@;
        assert(front.last() == '\n');
        lemma_one_more_word(front, lines.last());
        assert(words(text) =~= lines);
    }
    assert((text + "\n"@).drop_last() =~= text);
    assert((text + "\n"@).last() == '\n');
}

/// Text that a process prints as UTF-8 is read back.
pub proof fn law_text_is_read_back(text: Seq<char>)
    ensures
        valid_utf8(encode_utf8(text)),
        decode_utf8(encode_utf8(text)) == text,
{
    encode_utf8_valid_utf8(text);
    encode_utf8_decode_utf8(text);
}

/// An absolute name stands for itself, and any other stands behind the base.
pub proof fn law_paths_stay_under_the_base(base: Seq<char>, name: Seq<char>)
    ensures
        name.len() > 0 && name[0] == '/' ==> path_under(base, name) == name,
        !(name.len() > 0 && name[0] == '/') ==> path_under(base, name).take(base.len() as int)
            == base,
        path_under(base, name).skip(path_under(base, name).len() - name.len()) == name,
{
    let path = path_under(base, name);
    if !(name.len() > 0 && name[0] == '/') {
        assert(path.take(base.len() as int) =~= base);
    }
    assert(path.skip(path.len() - name.len()) =~= name);
}

} // verus!
