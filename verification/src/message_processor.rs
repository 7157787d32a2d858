//! Recording the messages of a feed, and reading the record back.
//!
//! A record holds one line per message: the time at which the message came, in
//! its text form, and the message. Written to a file, the two follow each other
//! directly, and a reader cuts the line after the `LEN` bytes of the time.

use vstd::prelude::*;
use vstd::string::StringSliceAdditionalSpecFns;
use vstd::utf8::is_char_boundary;
use crate::gdax;
use crate::gemini;
use crate::text::same_text;
use crate::time::{formatted_instant, Time, LEN};

verus! {

/// Where a logger writes.
#[derive(Clone, Copy, Debug, PartialEq, Eq, Structural)]
pub enum LoggerKind {
    /// To a file that a replay can read.
    File,
    /// To the standard output, for a person to read.
    Stdout,
}

/// A recorder of the messages of one feed. It stands in for the feed's
/// processor, so it carries the feed's address and subscription message.
#[derive(Debug, PartialEq, Eq)]
pub struct Logger {
    kind: LoggerKind,
    subscribe_message: Option<String>,
    server_name: String,
}

/// The feeds that are known.
pub enum Processor {
    Gdax(gdax::JsonProcessor),
    Gemini(gemini::JsonProcessor),
}

/// The line that records a message that came at the time given by seconds and
/// nanoseconds: time and message, with a space between them on the standard
/// output only, and a line feed at the end.
pub open spec fn record_line(kind: LoggerKind, secs: int, nanos: int, message: Seq<char>) -> Seq<
    char,
> {
    match kind {
        LoggerKind::File => formatted_instant(secs, nanos) + message + "\n"@,
        LoggerKind::Stdout => formatted_instant(secs, nanos) + " "@ + message + "\n"@,
    }
}

impl LoggerKind {
    /// Where a logger of the given file name writes: the name `stdout` stands for
    /// the standard output, every other name for the file of that name.
    pub fn of_filename(filename: &str) -> (kind: LoggerKind)
        ensures
            kind == (if filename@ == "stdout"@ {
                LoggerKind::Stdout
            } else {
                LoggerKind::File
            }),
    {
        if same_text(filename, "stdout") {
            LoggerKind::Stdout
        } else {
            LoggerKind::File
        }
    }
}

impl Logger {
    /// Where the logger writes.
    pub closed spec fn spec_kind(&self) -> LoggerKind {
        self.kind
    }

    /// The logger of a feed with the given address and subscription message.
    pub fn new(kind: LoggerKind, subscribe_message: Option<String>, server_name: String) -> (logger:
        Logger)
        ensures
            logger.spec_kind() == kind,
            logger.spec_subscribe_message() == subscribe_message,
            logger.spec_server_name() == server_name,
    {
        Logger { kind, subscribe_message, server_name }
    }

    /// Where the logger writes.
    pub fn kind(&self) -> (kind: LoggerKind)
        ensures
            kind == self.spec_kind(),
    {
        self.kind
    }

    /// The subscription message of the feed.
    pub closed spec fn spec_subscribe_message(&self) -> Option<String> {
        self.subscribe_message
    }

    /// The address of the feed.
    pub closed spec fn spec_server_name(&self) -> String {
        self.server_name
    }

    /// The subscription message of the feed.
    pub fn subscribe_message(&self) -> (message: Option<String>)
        ensures
            message == self.spec_subscribe_message(),
    {
        match &self.subscribe_message {
            Some(text) => Some(text.clone()),
            None => None,
        }
    }

    /// The address of the feed.
    pub fn server_name(&self) -> (name: String)
        ensures
            name == self.spec_server_name(),
    {
        self.server_name.clone()
    }

    /// The line to write for a message that came at `now`.
    pub fn on_message(&self, now: &Time, message: &str) -> (line: String)
        ensures
            line@ == record_line(self.spec_kind(), now.spec_secs(), now.spec_nanos(), message@),
    {
        let stamp = now.to_string();
        match self.kind {
            LoggerKind::File => stamp.concat(message).concat("\n"),
            LoggerKind::Stdout => stamp.concat(" ").concat(message).concat("\n"),
        }
    }
}

/// Cuts a line of a record into the text of the time and the message.
///
/// `None` for a line that cannot be cut after `LEN` bytes: one that is shorter,
/// or in which a character lies across the cut.
pub fn split_line(line: &str) -> (parts: Option<(&str, &str)>)
    ensures
        parts is Some <==> LEN <= line.spec_bytes().len() && is_char_boundary(
            line.spec_bytes(),
            LEN as int,
        ),
        parts matches Some((stamp, message)) ==> {
            &&& stamp.spec_bytes() == line.spec_bytes().subrange(0, LEN as int)
            &&& message.spec_bytes() == line.spec_bytes().subrange(
                LEN as int,
                line.spec_bytes().len() as int,
            )
        },
{
    if line.as_bytes().len() < LEN {
        return None;
    }
    if !line.is_char_boundary(LEN) {
        return None;
    }
    Some(line.split_at(LEN))
}

/// The processor of the feed of the given name: `"gdax"` or `"gemini"`, each
/// with a book before any update. Any other name is an error whose text ends
/// with the name.
pub fn feed_processor(feed_name: &str) -> (res: Result<Processor, String>)
    ensures
        match res {
            Ok(Processor::Gdax(processor)) => feed_name@ == "gdax"@ && processor@
                == crate::book_processor::BookModel::initial(),
            Ok(Processor::Gemini(processor)) => feed_name@ == "gemini"@ && feed_name@ != "gdax"@
                && processor@ == crate::book_processor::BookModel::initial(),
            Err(text) => feed_name@ != "gdax"@ && feed_name@ != "gemini"@ && text@
                == "unsupported feed "@ + feed_name@,
        },
{
    if same_text(feed_name, "gdax") {
        Ok(Processor::Gdax(gdax::JsonProcessor::new()))
    } else if same_text(feed_name, "gemini") {
        Ok(Processor::Gemini(gemini::JsonProcessor::new()))
    } else {
        Err(String::from_str("unsupported feed ").concat(feed_name))
    }
}

} // verus!
