//! What holds of the texts that commands and messages are made of.
use vstd::prelude::*;

use crate::caches::{cache_url, pull_urls};
use crate::clock::timestamp;
use crate::command::CommandView;
use crate::error::NixErrorView;
use crate::inputs::{section_begins, section_first_begins, section_of};
use crate::keys::{all_bound, as_map, bound, has_name, names_once, place_of, values, Entries};
use crate::laws::names::{law_decimal_reads_back, law_words_are_solid, lemma_one_more_word, solid};
use crate::nix::database_url;
use crate::path::{behind_last, directory, extended, file_name, path_under, stem, takes_extension};
use crate::requests::project_report;
use crate::run::failure_report;
use crate::text::{decimal, digit, has_suffix, in_word, joined, signed_decimal, white_space, words};

verus! {

/// The pieces strung together from the front, with `separator` between each two.
pub open spec fn strung(parts: Seq<Seq<char>>, separator: Seq<char>) -> Seq<char>
    decreases parts.len(),
{
    if parts.len() == 0 {
        Seq::empty()
    } else if parts.len() == 1 {
        parts[0]
    } else {
        parts[0] + separator + strung(parts.skip(1), separator)
    }
}

/// The web addresses of the caches of these names, in order, with single blanks
/// between them.
pub open spec fn addresses(names: Seq<Seq<char>>) -> Seq<char>
    decreases names.len(),
{
    if names.len() == 0 {
        Seq::empty()
    } else if names.len() == 1 {
        "https://"@ + names[0] + ".cachix.org"@
    } else {
        "https://"@ + names[0] + ".cachix.org"@ + " "@ + addresses(names.skip(1))
    }
}

proof fn lemma_strung_push(parts: Seq<Seq<char>>, separator: Seq<char>, last: Seq<char>)
    requires
        parts.len() > 0,
    ensures
        strung(parts.push(last), separator) == strung(parts, separator) + separator + last,
    decreases parts.len(),
{
    let all = parts.push(last);
    reveal_with_fuel(strung, 3);
    if parts.len() == 1 {
        assert(all.skip(1) =~= seq![last]);
    } else {
        assert(all.skip(1) =~= parts.skip(1).push(last));
        lemma_strung_push(parts.skip(1), separator, last);
    }
    assert(strung(all, separator) =~= strung(parts, separator) + separator + last);
}

/// Pieces are joined in order, each once, with the separator between each two and
/// nowhere else.
pub proof fn law_pieces_are_strung_together(parts: Seq<Seq<char>>, separator: Seq<char>)
    ensures
        joined(parts, separator) == strung(parts, separator),
    decreases parts.len(),
{
    if parts.len() > 1 {
        law_pieces_are_strung_together(parts.drop_last(), separator);
        lemma_strung_push(parts.drop_last(), separator, parts.last());
        assert(parts.drop_last().push(parts.last()) =~= parts);
    }
}

/// Each cache has one web address, which holds its name and no other, and the
/// addresses come in the order of the names.
pub proof fn law_addresses_are_of_the_names(names: Seq<Seq<char>>)
    ensures
        pull_urls(names).len() == names.len(),
        forall|i: int|
            0 <= i < names.len() ==> #[trigger] pull_urls(names)[i] == "https://"@ + names[i]
                + ".cachix.org"@,
        joined(pull_urls(names), " "@) == addresses(names),
    decreases names.len(),
{
    law_pieces_are_strung_together(pull_urls(names), " "@);
    if names.len() > 1 {
        law_addresses_are_of_the_names(names.skip(1));
        law_pieces_are_strung_together(pull_urls(names.skip(1)), " "@);
        assert(pull_urls(names).skip(1) =~= pull_urls(names.skip(1)));
    }
    assert(names.len() > 0 ==> cache_url(names[0]) == "https://"@ + names[0] + ".cachix.org"@);
}

/// A text ends in another where something can be put in front of that other to
/// make it.
pub proof fn law_suffixes_end_the_text(text: Seq<char>, suffix: Seq<char>)
    ensures
        has_suffix(text, suffix) <==> exists|front: Seq<char>| text == #[trigger] (front + suffix),
{
    if has_suffix(text, suffix) {
        let front = text.take(text.len() - suffix.len());
        assert(text =~= front + suffix);
    }
    if exists|front: Seq<char>| text == #[trigger] (front + suffix) {
        let front = choose|front: Seq<char>| text == #[trigger] (front + suffix);
        assert(text.skip(text.len() - suffix.len()) =~= suffix);
    }
}

/// No number is written with a zero in front, but for zero itself.
pub proof fn law_decimals_are_short(n: nat)
    ensures
        decimal(n)[0] == '0' ==> n == 0,
        n == 0 ==> decimal(n) == seq!['0'],
    decreases n,
{
    if n >= 10 {
        law_decimals_are_short(n / 10);
        law_decimal_reads_back(n / 10);
        assert(decimal(n)[0] == decimal(n / 10)[0]);
    } else {
        assert(decimal(n)[0] == digit(n));
    }
}

/// A negative number is written as its opposite behind a minus sign, and any other
/// without a sign.
pub proof fn law_signs_stand_in_front(n: int)
    ensures
        n >= 0 ==> signed_decimal(n) == decimal(n as nat),
        n < 0 ==> signed_decimal(n).len() > 0 && signed_decimal(n)[0] == '-' && signed_decimal(
            n,
        ).skip(1) == decimal((-n) as nat),
{
    if n < 0 {
        assert(signed_decimal(n).skip(1) =~= decimal((-n) as nat));
    }
}

/// The name of a moment gives its seconds before a dot, and its nanoseconds behind
/// it.
pub proof fn law_moments_are_read_back(secs: u64, nanos: u32)
    ensures
        exists|dot: int|
            0 <= dot < timestamp(secs, nanos).len() && #[trigger] timestamp(secs, nanos)[dot] == '.'
                && timestamp(secs, nanos).take(dot) == decimal(secs as nat) && timestamp(
                secs,
                nanos,
            ).skip(dot + 1) == decimal(nanos as nat),
{
    let dot = decimal(secs as nat).len() as int;
    let text = timestamp(secs, nanos);
    assert(text[dot] == '.');
    assert(text.take(dot) =~= decimal(secs as nat));
    assert(text.skip(dot + 1) =~= decimal(nanos as nat));
}

/// Between the base and a name that is not absolute there is one slash, unless the
/// base ends in one already or is empty, and nothing else is added.
pub proof fn law_one_slash_parts_names(base: Seq<char>, name: Seq<char>)
    requires
        !(name.len() > 0 && name[0] == '/'),
    ensures
        base.len() == 0 || base.last() == '/' ==> path_under(base, name) == base + name,
        base.len() > 0 && base.last() != '/' ==> path_under(base, name) == base + "/"@ + name,
{
    reveal_strlit("/");
    assert(base.push('/') =~= base + "/"@);
}

proof fn lemma_last_in_front(front: Seq<char>, back: Seq<char>, c: char)
    requires
        !back.contains(c),
    ensures
        behind_last(front + back, c) == behind_last(front, c),
    decreases back.len(),
{
    if back.len() == 0 {
        assert(front + back =~= front);
    } else {
        let all = front + back;
        assert(all.last() == back.last());
        assert(back.contains(back.last()));
        assert(all.drop_last() =~= front + back.drop_last());
        assert forall|i: int| 0 <= i < back.drop_last().len() implies back.drop_last()[i] != c by {
            assert(back.contains(back[i]));
        }
        lemma_last_in_front(front, back.drop_last(), c);
    }
}

proof fn lemma_parted(front: Seq<char>, name: Seq<char>)
    requires
        front.len() == 0 || front.last() == '/',
        !name.contains('/'),
    ensures
        directory(front + name) == front,
        file_name(front + name) == name,
{
    lemma_last_in_front(front, name, '/');
    assert(behind_last(front, '/') == front.len());
    assert((front + name).take(front.len() as int) =~= front);
    assert((front + name).skip(front.len() as int) =~= name);
}

/// A lock is named after what it guards: `lock` takes the place of the extension
/// where there is one.
pub proof fn law_locks_replace_the_extension(
    front: Seq<char>,
    name: Seq<char>,
    extension: Seq<char>,
)
    requires
        front.len() == 0 || front.last() == '/',
        name.len() > 0,
        name != seq!['.'],
        !name.contains('/'),
        !extension.contains('/'),
        !extension.contains('.'),
    ensures
        takes_extension(front + name + seq!['.'] + extension),
        extended(front + name + seq!['.'] + extension, "lock"@) == front + name + ".lock"@,
{
    reveal_strlit("lock");
    reveal_strlit(".lock");
    let file = name + seq!['.'] + extension;
    let path = front + name + seq!['.'] + extension;
    assert(path =~= front + file);
    assert forall|i: int| 0 <= i < file.len() implies file[i] != '/' by {
        if i < name.len() {
            assert(name.contains(name[i]));
        } else if i > name.len() {
            assert(extension.contains(extension[i - name.len() - 1]));
        }
    }
    lemma_parted(front, file);
    assert((name + seq!['.']).last() == '.');
    lemma_last_in_front(name + seq!['.'], extension, '.');
    assert(file.take(name.len() as int) =~= name);
    assert(stem(file) == name);
    assert(file[name.len() as int] == '.');
    if file.len() == 2 {
        assert(name =~= seq![name[0]]);
    }
    assert(extended(path, "lock"@) =~= front + name + ".lock"@);
}

/// A lock is named after what it guards: `.lock` is added where there is no
/// extension.
pub proof fn law_locks_add_an_extension(front: Seq<char>, name: Seq<char>)
    requires
        front.len() == 0 || front.last() == '/',
        name.len() > 0,
        name != seq!['.'],
        !name.contains('/'),
        !name.skip(1).contains('.'),
    ensures
        takes_extension(front + name),
        extended(front + name, "lock"@) == front + name + ".lock"@,
{
    reveal_strlit("lock");
    reveal_strlit(".lock");
    lemma_parted(front, name);
    assert(name =~= name.take(1) + name.skip(1));
    lemma_last_in_front(name.take(1), name.skip(1), '.');
    assert(name.take(1).drop_last() =~= Seq::<char>::empty());
    reveal_with_fuel(behind_last, 2);
    assert(behind_last(name.take(1), '.') <= 1);
    assert(stem(name) == name);
    if name == seq!['.', '.'] {
        assert(name.skip(1)[0] == '.');
    }
    assert(extended(front + name, "lock"@) =~= front + name + ".lock"@);
}

proof fn lemma_first_section(text: Seq<char>, start: int)
    requires
        section_begins(text, start),
    ensures
        exists|first: int| first <= start && section_first_begins(text, first),
    decreases start,
{
    if exists|i: int| 0 <= i < start && section_begins(text, i) {
        let i = choose|i: int| 0 <= i < start && section_begins(text, i);
        lemma_first_section(text, i);
    } else {
        assert(section_first_begins(text, start));
    }
}

/// What is read as the list of inputs is headed `Inputs:` and holds something
/// behind its heading, or there is none.
pub proof fn law_inputs_are_headed(text: Seq<char>)
    ensures
        section_of(text).len() > 0 ==> section_of(text).len() > "Inputs:"@.len() && section_of(
            text,
        ).take("Inputs:"@.len() as int) == "Inputs:"@,
{
    if exists|start: int| section_first_begins(text, start) {
        let start = choose|start: int| section_first_begins(text, start);
        let section = text.skip(start);
        assert(section.take("Inputs:"@.len() as int) =~= text.subrange(
            start,
            start + "Inputs:"@.len(),
        ));
    }
}

/// Nothing of the list of inputs is left out: wherever the last line holds the
/// heading and something behind it, the list begins there or before.
pub proof fn law_inputs_are_whole(text: Seq<char>, start: int)
    requires
        0 <= start,
        start + "Inputs:"@.len() < text.len(),
        text.subrange(start, start + "Inputs:"@.len()) == "Inputs:"@,
        forall|i: int| start <= i < text.len() ==> text[i] != '\n',
    ensures
        section_of(text).len() >= text.len() - start,
{
    assert(section_begins(text, start));
    lemma_first_section(text, start);
    let first = choose|first: int| first <= start && section_first_begins(text, first);
    let other = choose|s: int| section_first_begins(text, s);
    assert(section_first_begins(text, other));
    assert(first == other);
}

/// White space parts words: what stands before it and what stands behind it are
/// split each for itself.
pub proof fn law_white_space_parts_words(front: Seq<char>, c: char, back: Seq<char>)
    requires
        white_space(c),
    ensures
        words(front.push(c) + back) == words(front) + words(back),
    decreases back.len(),
{
    let all = front.push(c) + back;
    if back.len() == 0 {
        assert(all =~= front.push(c));
        assert(all.drop_last() =~= front);
        assert(words(front) + words(back) =~= words(front));
    } else {
        let less = back.drop_last();
        law_white_space_parts_words(front, c, less);
        assert(all.drop_last() =~= front.push(c) + less);
        assert(in_word(all.drop_last()) == in_word(less));
        law_words_are_solid(less);
        assert(words(all) =~= words(front) + words(back));
    }
}

/// A text without white space is one word.
pub proof fn law_a_solid_text_is_one_word(text: Seq<char>)
    requires
        text.len() > 0,
        solid(text),
    ensures
        words(text) == seq![text],
{
    lemma_one_more_word(Seq::empty(), text);
    assert(Seq::<char>::empty() + text =~= text);
    assert(words(text) =~= seq![text]);
}

/// A command is shown as its program and all of its arguments, with blanks between
/// them.
pub proof fn law_commands_are_shown_whole(command: CommandView)
    ensures
        command.shown() == command.program + " "@ + strung(command.args, " "@),
        command.args.len() > 0 ==> command.shown() == strung(
            seq![command.program] + command.args,
            " "@,
        ),
{
    law_pieces_are_strung_together(command.args, " "@);
    let all = seq![command.program] + command.args;
    assert(all.skip(1) =~= command.args);
}

/// A command that fails is named in the failure, and so is its exit code.
pub proof fn law_failures_are_put_in_words(command: Seq<char>, reason: Seq<char>, code: i32)
    ensures
        (NixErrorView::NotStarted { command, reason }).message() == "Failed to run command `"@
            + command + "`"@,
        (NixErrorView::CommandFailed { command, code: Some(code) }).message() == "Command `"@
            + command + "` failed with "@ + ("with exit code "@ + signed_decimal(code as int)),
        (NixErrorView::CommandFailed { command, code: None }).message() == "Command `"@ + command
            + "` failed with "@ + "without exit code"@,
        (NixErrorView::OutputNotUtf8 { reason }).message()
            == "Failed to parse command output as UTF-8: "@ + reason,
        NixErrorView::DevenvNixNotSet.message() == "$DEVENV_NIX is not set"@,
        NixErrorView::ShellNotReplaced.message() == "Failed to replace shell"@,
        NixErrorView::CacheRefused.message()
            == "Cache does not exist or you don't have a CACHIX_AUTH_TOKEN configured."@,
        NixErrorView::NotTrusted.message() == "You're not a trusted user of the Nix store."@,
        NixErrorView::InvalidKeys.message() == "Failed to parse JSON"@,
        NixErrorView::ClockBeforeEpoch.message() == "Time went backwards"@,
{
}

/// The report on a failed command holds the whole of what it printed: its output
/// behind a heading, and its error output behind that, at the end.
pub proof fn law_failure_reports_are_whole(stdout: Seq<char>, stderr: Seq<char>)
    ensures
        ({
            let report = failure_report(stdout, stderr);
            let heading = "Command produced the following output:\n"@;
            let behind = (heading.len() + stdout.len()) as int;
            &&& report.len() == behind + 1 + stderr.len()
            &&& report.take(heading.len() as int) == heading
            &&& report.subrange(heading.len() as int, behind) == stdout
            &&& report[behind] == '\n'
            &&& report.skip(behind + 1) == stderr
        }),
{
    reveal_strlit("\n");
    let report = failure_report(stdout, stderr);
    let heading = "Command produced the following output:\n"@;
    let behind = (heading.len() + stdout.len()) as int;
    assert(report.take(heading.len() as int) =~= heading);
    assert(report.subrange(heading.len() as int, behind) =~= stdout);
    assert(report.skip(behind + 1) =~= stderr);
}

/// The report on a project ends in the whole of what the project says of itself.
/// Before that stand the list of inputs, whole, and one line feed.
pub proof fn law_project_reports_are_whole(metadata: Seq<char>, info: Seq<char>)
    ensures
        ({
            let report = project_report(metadata, info);
            let inputs = report.len() - info.len() - 1;
            &&& inputs >= 0
            &&& report.skip(report.len() - info.len()) == info
            &&& report[inputs] == '\n'
            &&& report.take(inputs) == section_of(metadata)
        }),
{
    reveal_strlit("\n");
    let report = project_report(metadata, info);
    let inputs = report.len() - info.len() - 1;
    assert(report.skip(report.len() - info.len()) =~= info);
    assert(report.take(inputs) =~= section_of(metadata));
}

/// Two reports on projects are the same only where the inputs end in the same way
/// and the projects say the same, provided that they say as much.
pub proof fn law_project_reports_tell_projects_apart(
    metadata: Seq<char>,
    info: Seq<char>,
    other_metadata: Seq<char>,
    other_info: Seq<char>,
)
    requires
        project_report(metadata, info) == project_report(other_metadata, other_info),
        info.len() == other_info.len(),
    ensures
        info == other_info,
        section_of(metadata) == section_of(other_metadata),
{
    law_project_reports_are_whole(metadata, info);
    law_project_reports_are_whole(other_metadata, other_info);
}

/// The database of the evaluation cache stands in the directory of working files.
pub proof fn law_the_database_is_a_working_file(devenv_dotfile: Seq<char>)
    ensures
        database_url(devenv_dotfile) == "sqlite:"@ + devenv_dotfile + "/nix-eval-cache.db"@,
{
}

/// A name is known where it stands among the entries, and it is bound to the value
/// that stands with it.
pub proof fn law_entries_bind_names(entries: Entries, name: Seq<char>)
    requires
        names_once(entries),
    ensures
        as_map(entries).contains_key(name) <==> exists|i: int|
            0 <= i < entries.len() && (#[trigger] entries[i]).0 == name,
        has_name(entries, name) == as_map(entries).contains_key(name),
        forall|i: int|
            0 <= i < entries.len() && (#[trigger] entries[i]).0 == name ==> as_map(entries)[name]
                == entries[i].1,
{
    assert forall|i: int| 0 <= i < entries.len() && (#[trigger] entries[i]).0 == name implies as_map(
        entries,
    )[name] == entries[i].1 by {
        let p = place_of(entries, name);
        assert(0 <= p < entries.len() && entries[p].0 == name);
    }
}

/// To bind a name changes the value of that name and of no other, and it moves
/// nothing.
pub proof fn law_binding_leaves_the_rest(entries: Entries, name: Seq<char>, value: Seq<char>)
    requires
        names_once(entries),
    ensures
        bound(entries, name, value).len() == entries.len() + if has_name(entries, name) {
            0int
        } else {
            1
        },
        forall|i: int|
            0 <= i < entries.len() ==> #[trigger] bound(entries, name, value)[i] == if entries[i].0
                == name {
                (name, value)
            } else {
                entries[i]
            },
        !has_name(entries, name) ==> bound(entries, name, value).last() == (name, value),
        exists|i: int|
            0 <= i < bound(entries, name, value).len() && #[trigger] bound(
                entries,
                name,
                value,
            )[i] == (name, value),
{
    let after = bound(entries, name, value);
    if has_name(entries, name) {
        let p = place_of(entries, name);
        assert(0 <= p < entries.len() && entries[p].0 == name);
        assert(after[p] == (name, value));
    } else {
        assert(after[entries.len() as int] == (name, value));
    }
}

/// Many names are bound one after another, the first one first.
pub proof fn law_many_are_bound_in_turn(
    entries: Entries,
    more: Entries,
    name: Seq<char>,
    value: Seq<char>,
)
    ensures
        all_bound(entries, Entries::empty()) == entries,
        all_bound(entries, more.push((name, value))) == bound(
            all_bound(entries, more),
            name,
            value,
        ),
{
    assert(more.push((name, value)).drop_last() =~= more);
}

/// The values are those of the entries, in order, and none is left out.
pub proof fn law_values_are_those_of_the_entries(entries: Entries)
    ensures
        values(entries).len() == entries.len(),
        forall|i: int| 0 <= i < entries.len() ==> #[trigger] values(entries)[i] == entries[i].1,
{
}

} // verus!
