//! What the log callback decides for each message: the emitting component's
//! name, whether the text is buffered or flushed, and the record it yields.
use vstd::prelude::*;
use vstd::utf8::decode_utf8;
use vstd::utf8::valid_utf8;
use crate::accumulator::Accumulator;
use crate::accumulator::appended;
use crate::accumulator::pending_text;
use crate::severity::Level;
use crate::severity::Severity;
use crate::severity::level_at;
use crate::severity::level_index_of;

verus! {

/// The text that `String::from_utf8_lossy` makes of a byte sequence.
pub uninterp spec fn utf8_lossy(b: Seq<u8>) -> Seq<char>;

/// Relies on `String::from_utf8_lossy`: decodes the bytes, putting U+FFFD in
/// place of each invalid sequence; valid UTF-8 decodes unchanged.
#[verifier::external_body]
fn decode_lossy(bytes: &[u8]) -> (r: String)
    ensures
        r@ == utf8_lossy(bytes@),
        valid_utf8(bytes@) ==> r@ == decode_utf8(bytes@),
{
    String::from_utf8_lossy(bytes).into_owned()
}

/// The name reported for a component: the lossy decoding of the bytes that its
/// name function returned, or `NONE` where there was no name to ask for.
pub open spec fn component_name_of(name: Option<Vec<u8>>) -> Seq<char> {
    match name {
        Some(b) => utf8_lossy(b@),
        None => "NONE"@,
    }
}

/// Resolves the emitting component's name from the bytes that its name
/// function returned; `None` stands for a missing context or a descriptor
/// without a name function.
pub fn component_name(name: Option<Vec<u8>>) -> (r: String)
    ensures
        r@ == component_name_of(name),
        name is Some && valid_utf8(name->0@) ==> r@ == decode_utf8(name->0@),
{
    match name {
        Some(b) => decode_lossy(b.as_slice()),
        None => String::from_str("NONE"),
    }
}

/// Whether a text ends in a newline.
pub open spec fn ends_with_newline(s: Seq<char>) -> bool {
    s.len() > 0 && s.last() == '\n'
}

/// The line emitted for a record: `[ffmpeg:<TAG>:<component>] <message>`.
pub open spec fn record_line(level: Level, component: Seq<char>, message: Seq<char>) -> Seq<char> {
    "[ffmpeg:"@ + level.tag_text() + ":"@ + component + "] "@ + message
}

/// The warning logged when a message could not be formatted.
pub open spec fn format_failure_text(error: Seq<char>) -> Seq<char> {
    "Error formatting ffmpeg log: "@ + error
}

/// One complete log line, ready for the structured logger.
#[derive(Debug, PartialEq, Eq)]
pub struct LogRecord {
    pub level: Level,
    pub component: String,
    pub message: String,
}

impl LogRecord {
    /// The logger severity that the record is emitted at.
    pub fn severity(&self) -> (r: Severity)
        ensures
            r == self.level.severity_of(),
    {
        self.level.severity()
    }

    /// The text of the emitted line.
    pub fn line(&self) -> (r: String)
        ensures
            r@ == record_line(self.level, self.component@, self.message@),
    {
        let mut out = String::from_str("[ffmpeg:");
        let tag = self.level.tag();
        out.append(tag.as_str());
        out.append(":");
        out.append(self.component.as_str());
        out.append("] ");
        out.append(self.message.as_str());
        out
    }
}

/// What one invocation of the log callback leads to.
#[derive(Debug, PartialEq, Eq)]
pub enum Outcome {
    /// A newline completed the pending text: emit this record.
    Emit(LogRecord),
    /// The text was kept pending: nothing is emitted yet.
    Buffered,
    /// The message could not be formatted: log this warning and drop it.
    FormatFailed(String),
}

/// Handles one message of the native library.
///
/// `name` holds the bytes that the emitter's name function returned (`None`
/// where there was none), `code` the raw severity code, and `formatted` the
/// formatted message or a description of why formatting failed. A message
/// ending in a newline completes the pending text and yields a record; any
/// other message is buffered; a formatting failure leaves the pending text
/// untouched and yields a warning.
pub fn on_log_message(
    acc: &mut Accumulator,
    name: Option<Vec<u8>>,
    code: i32,
    formatted: Result<String, String>,
) -> (r: Outcome)
    ensures
        formatted is Err ==> {
            &&& final(acc)@ == old(acc)@
            &&& r is FormatFailed
            &&& r->FormatFailed_0@ == format_failure_text(formatted->Err_0@)
        },
        formatted is Ok && ends_with_newline(formatted->Ok_0@) ==> {
            &&& final(acc)@ == None::<Seq<char>>
            &&& r is Emit
            &&& r->Emit_0.level == level_at(level_index_of(code as int))
            &&& r->Emit_0.component@ == component_name_of(name)
            &&& r->Emit_0.message@ == pending_text(old(acc)@) + formatted->Ok_0@.drop_last()
        },
        formatted is Ok && !ends_with_newline(formatted->Ok_0@) ==> {
            &&& final(acc)@ == appended(old(acc)@, formatted->Ok_0@)
            &&& r is Buffered
        },
{
    let component = component_name(name);
    match formatted {
        Err(e) => {
            let warning = String::from_str("Error formatting ffmpeg log: ").concat(e.as_str());
            Outcome::FormatFailed(warning)
        },
        Ok(text) => {
            let n = text.as_str().unicode_len();
            if n > 0 && text.as_str().get_char(n - 1) == '\n' {
                let body = String::from_str(text.as_str().substring_char(0, n - 1));
                let message = acc.extend_or_start(body);
                let level = Level::from_code(code);
                Outcome::Emit(LogRecord { level, component, message })
            } else {
                acc.append(text);
                Outcome::Buffered
            }
        },
    }
}

} // verus!
