//! The part of a flake's metadata that lists its inputs.
use vstd::prelude::*;
use vstd::string::*;

verus! {

/// What the list of inputs is found by: a heading, and something behind it on
/// the last line of the text.
pub open spec fn inputs_pattern() -> Seq<char> {
    "(Inputs:.+)$"@
}

/// Whether a list of inputs begins at `start`: the heading stands there, at
/// least one character follows it, and no line ends behind it.
pub open spec fn section_begins(text: Seq<char>, start: int) -> bool {
    &&& 0 <= start
    &&& start + "Inputs:"@.len() < text.len()
    &&& text.subrange(start, start + "Inputs:"@.len()) == "Inputs:"@
    &&& forall|i: int| start + "Inputs:"@.len() <= i < text.len() ==> text[i] != '\n'
}

/// Whether a list of inputs begins at `start` and none before it.
pub open spec fn section_first_begins(text: Seq<char>, start: int) -> bool {
    section_begins(text, start) && forall|i: int| 0 <= i < start ==> !section_begins(text, i)
}

/// The first list of inputs, to the end of the text, or nothing where there is
/// none.
pub open spec fn section_of(text: Seq<char>) -> Seq<char> {
    if exists|start: int| section_first_begins(text, start) {
        text.skip(choose|start: int| section_first_begins(text, start))
    } else {
        Seq::empty()
    }
}

/// `regex::Regex::new` and `regex::Regex::captures` with the pattern for the
/// list of inputs: what the pattern's group holds in the leftmost match, where
/// there is a match. The pattern is a valid one and its group takes part in every
/// match. The dot stands for any character
/// but a line feed, and the dollar sign for the end of the text.
#[verifier::external_body]
fn captured(pattern: &str, text: &str) -> (r: Option<String>)
    requires
        pattern@ == inputs_pattern(),
    ensures
        match r {
            Some(section) => exists|start: int|
                section_first_begins(text@, start) && section@ == text@.skip(start),
            None => forall|start: int| !section_begins(text@, start),
        },
{
    let re = regex::Regex::new(pattern).unwrap();
    re.captures(text).map(|c| c.get(1).unwrap().as_str().to_string())
}

/// There is at most one first list of inputs.
proof fn lemma_one_section(text: Seq<char>, a: int, b: int)
    requires
        section_first_begins(text, a),
        section_first_begins(text, b),
    ensures
        a == b,
{
}

/// The list of inputs in a flake's metadata, or nothing where there is none.
pub fn inputs_section(metadata: &str) -> (s: String)
    ensures
        s@ == section_of(metadata@),
{
    match captured("(Inputs:.+)$", metadata) {
        Some(section) => {
            proof {
                let start = choose|start: int|
                    section_first_begins(metadata@, start) && section@ == metadata@.skip(start);
                let other = choose|start: int| section_first_begins(metadata@, start);
                lemma_one_section(metadata@, start, other);
            }
            section
        },
        None => String::new(),
    }
}

} // verus!
