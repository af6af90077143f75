//! What the user is told while an operation goes on.
use vstd::prelude::*;
use vstd::string::*;

verus! {

/// How much a notice matters.
#[derive(Clone, Copy, Debug, PartialEq, Eq, Structural)]
pub enum Level {
    Error,
    Warn,
    Info,
    Debug,
    /// Shown as it stands.
    Plain,
}

/// One message to the user.
#[derive(Debug, PartialEq, Eq)]
pub struct Notice {
    pub level: Level,
    pub text: String,
}

/// [`Notice`] with its text as a character sequence.
pub struct NoticeView {
    pub level: Level,
    pub text: Seq<char>,
}

impl DeepView for Notice {
    type V = NoticeView;

    open spec fn deep_view(&self) -> NoticeView {
        NoticeView { level: self.level, text: self.text@ }
    }
}

pub open spec fn error_notice(text: Seq<char>) -> NoticeView {
    NoticeView { level: Level::Error, text }
}

pub open spec fn warning(text: Seq<char>) -> NoticeView {
    NoticeView { level: Level::Warn, text }
}

pub open spec fn information(text: Seq<char>) -> NoticeView {
    NoticeView { level: Level::Info, text }
}

pub open spec fn debugging(text: Seq<char>) -> NoticeView {
    NoticeView { level: Level::Debug, text }
}

/// Adds a notice to the log.
pub fn report(log: &mut Vec<Notice>, level: Level, text: String)
    ensures
        final(log).deep_view() == old(log).deep_view().push(NoticeView { level, text: text@ }),
{
    log.push(Notice { level, text });
    assert(log.deep_view() =~= old(log).deep_view().push(NoticeView { level, text: text@ }));
}

} // verus!
