//! Log lines as values, and the bridge from log records to a callback.

use std::sync::Arc;
use vstd::prelude::*;

verus! {

/// How loud a log line is.
#[derive(Clone, Copy, PartialEq, Eq, Debug, Structural)]
pub enum LogLevel {
    Info,
    Warn,
}

/// One line for the embedding program to log.
#[derive(Clone, Debug, PartialEq, Eq)]
pub struct LogLine {
    pub level: LogLevel,
    pub text: String,
}

impl View for LogLine {
    type V = (LogLevel, Seq<char>);

    open spec fn view(&self) -> (LogLevel, Seq<char>) {
        (self.level, self.text@)
    }
}

/// What an optional line shows.
pub open spec fn shown(line: Option<LogLine>) -> Option<(LogLevel, Seq<char>)> {
    match line {
        Some(l) => Some(l@),
        None => None,
    }
}

/// What a list of lines shows, in order.
pub open spec fn shown_all(lines: Seq<LogLine>) -> Seq<(LogLevel, Seq<char>)> {
    Seq::new(lines.len(), |i: int| lines[i]@)
}

/// What is shown when an optional line follows another optional line.
pub open spec fn in_order(
    first: Option<(LogLevel, Seq<char>)>,
    second: Option<(LogLevel, Seq<char>)>,
) -> Seq<(LogLevel, Seq<char>)> {
    let head = match first {
        Some(l) => seq![l],
        None => Seq::empty(),
    };
    match second {
        Some(l) => head.push(l),
        None => head,
    }
}

impl LogLine {
    /// An informational line.
    pub fn info(text: String) -> (line: LogLine)
        ensures
            line@ == (LogLevel::Info, text@),
    {
        LogLine { level: LogLevel::Info, text }
    }

    /// A warning.
    pub fn warn(text: String) -> (line: LogLine)
        ensures
            line@ == (LogLevel::Warn, text@),
    {
        LogLine { level: LogLevel::Warn, text }
    }
}

/// Collects up to two lines in the order in which they were produced.
pub fn collect_lines(first: Option<LogLine>, second: Option<LogLine>) -> (lines: Vec<LogLine>)
    ensures
        shown_all(lines@) == in_order(shown(first), shown(second)),
{
    let mut lines: Vec<LogLine> = Vec::new();
    if let Some(l) = first {
        lines.push(l);
    }
    if let Some(l) = second {
        lines.push(l);
    }
    assert(shown_all(lines@) =~= in_order(shown(first), shown(second)));
    lines
}

/// A record can be handed on as a C string when no byte of it is zero.
pub open spec fn forwardable(record: Seq<u8>) -> bool {
    forall|i: int| 0 <= i < record.len() ==> record[i] != 0
}

/// Turns a log record into the bytes of a C string: the record followed by
/// one zero byte. A record that holds a zero byte cannot be a C string and is
/// dropped.
pub fn c_record(buf: &[u8]) -> (out: Option<Vec<u8>>)
    ensures
        out is Some <==> forwardable(buf@),
        out matches Some(bytes) ==> bytes@ == buf@.push(0u8),
{
    let mut bytes: Vec<u8> = Vec::new();
    let mut i: usize = 0;
    while i < buf.len()
        invariant
            i <= buf@.len(),
            bytes@ == buf@.subrange(0, i as int),
            forall|k: int| 0 <= k < i ==> buf@[k] != 0,
        decreases buf@.len() - i,
    {
        let b: u8 = buf[i];
        if b == 0 {
            return None;
        }
        bytes.push(b);
        i = i + 1;
        assert(bytes@ =~= buf@.subrange(0, i as int));
    }
    assert(buf@.subrange(0, i as int) =~= buf@);
    bytes.push(0u8);
    Some(bytes)
}

/// A writer that hands every record it is given to one callback.
#[derive(Clone)]
pub struct CallbackWriter<F> {
    func: Arc<F>,
}

impl<F> CallbackWriter<F> where F: Fn(&[u8]) + Send + Sync + 'static {
    /// The callback that the writer forwards to.
    pub closed spec fn callback(&self) -> F {
        *self.func
    }

    /// The callback can be called with every record.
    pub open spec fn accepts_every_record(&self) -> bool {
        forall|record: &[u8]| #[trigger] call_requires(self.callback(), (record,))
    }

    /// A writer around a shared callback.
    pub fn new(callback: Arc<F>) -> (writer: Self)
        ensures
            writer.callback() == *callback,
    {
        CallbackWriter { func: callback }
    }

    /// Hands the whole record to the callback in one call and reports all of
    /// it as written.
    pub fn write(&mut self, buf: &[u8]) -> (written: usize)
        requires
            old(self).accepts_every_record(),
        ensures
            written == buf@.len(),
            call_ensures(old(self).callback(), (buf,), ()),
            final(self).callback() == old(self).callback(),
    {
        let f: &F = &self.func;
        assert(call_requires(self.callback(), (buf,)));
        f(buf);
        buf.len()
    }

    /// Nothing is buffered, so there is nothing to flush.
    pub fn flush(&mut self)
        ensures
            final(self).callback() == old(self).callback(),
    {
    }
}

} // verus!
