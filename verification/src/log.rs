//! The lines that an emulator prints, as log records.

use vstd::prelude::*;

use crate::text::{self, strip_prefix_of, trim_start_of};

verus! {

/// How much a record matters.
#[derive(Clone, Copy, Debug, PartialEq, Eq, Structural)]
pub enum LogLevel {
    Error,
    Warn,
    Info,
    Debug,
    Trace,
}

/// The level and the text of the record that a line makes. The word with which
/// the line starts gives the level; a line that starts with no such word is
/// recorded whole.
pub open spec fn log_record(line: Seq<char>) -> (LogLevel, Seq<char>) {
    let trimmed = text::trim_start(line);
    if let Some(rest) = text::strip_prefix(trimmed, "ERROR "@) {
        (LogLevel::Error, text::trim_start(rest))
    } else if let Some(rest) = text::strip_prefix(trimmed, "WARNING "@) {
        (LogLevel::Warn, text::trim_start(rest))
    } else if let Some(rest) = text::strip_prefix(trimmed, "WARN "@) {
        (LogLevel::Warn, text::trim_start(rest))
    } else if let Some(rest) = text::strip_prefix(trimmed, "INFO "@) {
        (LogLevel::Info, text::trim_start(rest))
    } else if let Some(rest) = text::strip_prefix(trimmed, "DEBUG "@) {
        (LogLevel::Debug, text::trim_start(rest))
    } else if let Some(rest) = text::strip_prefix(trimmed, "TRACE "@) {
        (LogLevel::Trace, text::trim_start(rest))
    } else {
        (LogLevel::Debug, line)
    }
}

/// The level and the text of the record that a line makes.
pub fn log_emulator_line(line: &str) -> (res: (LogLevel, &str))
    ensures
        (res.0, res.1@) == log_record(line@),
{
    let trimmed = trim_start_of(line);
    if let Some(rest) = strip_prefix_of(trimmed, "ERROR ") {
        return (LogLevel::Error, trim_start_of(rest));
    }
    if let Some(rest) = strip_prefix_of(trimmed, "WARNING ") {
        return (LogLevel::Warn, trim_start_of(rest));
    }
    if let Some(rest) = strip_prefix_of(trimmed, "WARN ") {
        return (LogLevel::Warn, trim_start_of(rest));
    }
    if let Some(rest) = strip_prefix_of(trimmed, "INFO ") {
        return (LogLevel::Info, trim_start_of(rest));
    }
    if let Some(rest) = strip_prefix_of(trimmed, "DEBUG ") {
        return (LogLevel::Debug, trim_start_of(rest));
    }
    if let Some(rest) = strip_prefix_of(trimmed, "TRACE ") {
        return (LogLevel::Trace, trim_start_of(rest));
    }
    (LogLevel::Debug, line)
}

/// The level that a word gives to a line, if it gives one.
pub open spec fn level_of(word: Seq<char>) -> Option<LogLevel> {
    if word == "ERROR "@ {
        Some(LogLevel::Error)
    } else if word == "WARNING "@ || word == "WARN "@ {
        Some(LogLevel::Warn)
    } else if word == "INFO "@ {
        Some(LogLevel::Info)
    } else if word == "DEBUG "@ {
        Some(LogLevel::Debug)
    } else if word == "TRACE "@ {
        Some(LogLevel::Trace)
    } else {
        None
    }
}

/// How the words begin, which tells them apart.
proof fn lemma_words()
    ensures
        "ERROR "@.len() == 6 && "ERROR "@[0] == 'E' && "ERROR "@[4] == 'R' && "ERROR "@[5] == ' ',
        "WARNING "@.len() == 8 && "WARNING "@[0] == 'W' && "WARNING "@[4] == 'I',
        "WARN "@.len() == 5 && "WARN "@[0] == 'W' && "WARN "@[4] == ' ',
        "INFO "@.len() == 5 && "INFO "@[0] == 'I',
        "DEBUG "@.len() == 6 && "DEBUG "@[0] == 'D',
        "TRACE "@.len() == 6 && "TRACE "@[0] == 'T',
{
    reveal_strlit("ERROR ");
    reveal_strlit("WARNING ");
    reveal_strlit("WARN ");
    reveal_strlit("INFO ");
    reveal_strlit("DEBUG ");
    reveal_strlit("TRACE ");
}

/// A line that begins with the word for a level, behind white space or none, is
/// recorded at that level, without the word and the white space around it.
pub proof fn law_word_gives_the_level(
    line: &str,
    white: Seq<char>,
    word: Seq<char>,
    level: LogLevel,
    more: Seq<char>,
    rest: Seq<char>,
    res: (LogLevel, &str),
)
    requires
        call_ensures(log_emulator_line, (line,), res),
        line@ == white + word + more + rest,
        level_of(word) == Some(level),
        forall|i: int| 0 <= i < white.len() ==> text::is_white(#[trigger] white[i]),
        forall|i: int| 0 <= i < more.len() ==> text::is_white(#[trigger] more[i]),
        rest.len() > 0 ==> !text::is_white(rest[0]),
    ensures
        res.0 == level,
        res.1@ == rest,
{
    lemma_words();
    let tail = word + more + rest;
    assert(white + tail =~= line@);
    text::lemma_trim_start_between(white, tail);
    text::lemma_trim_start_between(more, rest);
    assert(tail.take(word.len() as int) =~= word);
    assert(tail.skip(word.len() as int) =~= more + rest);
    lemma_one_word(tail, word);
}

/// A text that starts with one of the words starts with no other.
proof fn lemma_one_word(tail: Seq<char>, word: Seq<char>)
    requires
        level_of(word) is Some,
        text::starts_with(tail, word),
    ensures
        text::starts_with(tail, "ERROR "@) <==> word == "ERROR "@,
        text::starts_with(tail, "WARNING "@) <==> word == "WARNING "@,
        text::starts_with(tail, "WARN "@) <==> word == "WARN "@,
        text::starts_with(tail, "INFO "@) <==> word == "INFO "@,
        text::starts_with(tail, "DEBUG "@) <==> word == "DEBUG "@,
        text::starts_with(tail, "TRACE "@) <==> word == "TRACE "@,
{
    lemma_words();
    lemma_starts_as(tail, word);
    if text::starts_with(tail, "ERROR "@) {
        lemma_starts_as(tail, "ERROR "@);
    }
    if text::starts_with(tail, "WARNING "@) {
        lemma_starts_as(tail, "WARNING "@);
    }
    if text::starts_with(tail, "WARN "@) {
        lemma_starts_as(tail, "WARN "@);
    }
    if text::starts_with(tail, "INFO "@) {
        lemma_starts_as(tail, "INFO "@);
    }
    if text::starts_with(tail, "DEBUG "@) {
        lemma_starts_as(tail, "DEBUG "@);
    }
    if text::starts_with(tail, "TRACE "@) {
        lemma_starts_as(tail, "TRACE "@);
    }
}

proof fn lemma_starts_as(s: Seq<char>, prefix: Seq<char>)
    requires
        text::starts_with(s, prefix),
        prefix.len() >= 5,
    ensures
        s[0] == prefix[0],
        s[4] == prefix[4],
{
    assert(s.take(prefix.len() as int)[0] == s[0]);
    assert(s.take(prefix.len() as int)[4] == s[4]);
}

/// A line that begins with no such word is recorded whole, for debugging.
pub proof fn law_other_lines_are_whole(
    line: &str,
    white: Seq<char>,
    rest: Seq<char>,
    res: (LogLevel, &str),
)
    requires
        call_ensures(log_emulator_line, (line,), res),
        line@ == white + rest,
        forall|i: int| 0 <= i < white.len() ==> text::is_white(#[trigger] white[i]),
        rest.len() > 0 ==> !text::is_white(rest[0]),
        forall|word: Seq<char>, more: Seq<char>| #[trigger]
            (word + more) == rest ==> level_of(word) is None,
    ensures
        res.0 is Debug,
        res.1@ == line@,
{
    text::lemma_trim_start_between(white, rest);
    lemma_not_started(rest, "ERROR "@);
    lemma_not_started(rest, "WARNING "@);
    lemma_not_started(rest, "WARN "@);
    lemma_not_started(rest, "INFO "@);
    lemma_not_started(rest, "DEBUG "@);
    lemma_not_started(rest, "TRACE "@);
}

proof fn lemma_not_started(rest: Seq<char>, word: Seq<char>)
    requires
        level_of(word) is Some,
        forall|w: Seq<char>, more: Seq<char>| #[trigger]
            (w + more) == rest ==> level_of(w) is None,
    ensures
        !text::starts_with(rest, word),
{
    if text::starts_with(rest, word) {
        assert(word + rest.skip(word.len() as int) =~= rest);
    }
}

} // verus!
