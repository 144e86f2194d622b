use vstd::prelude::*;
use vstd::string::*;

verus! {

/// One reported error, as it travels from a call site to the sink.
pub struct LogEntry {
    pub function_name: String,
    pub error_message: String,
    pub traceback: String,
    /// Moment of submission, in the clock units the host chose.
    pub timestamp: u64,
    pub sequence_id: u64,
}

/// What an entry holds, as plain mathematical values.
pub ghost struct EntryView {
    pub function_name: Seq<char>,
    pub error_message: Seq<char>,
    pub traceback: Seq<char>,
    pub timestamp: u64,
    pub sequence_id: u64,
}

impl View for LogEntry {
    type V = EntryView;

    open spec fn view(&self) -> EntryView {
        EntryView {
            function_name: self.function_name@,
            error_message: self.error_message@,
            traceback: self.traceback@,
            timestamp: self.timestamp,
            sequence_id: self.sequence_id,
        }
    }
}

/// Builds an entry; every string is kept as given, empty ones included.
pub fn make_entry(
    function_name: String,
    error_message: String,
    traceback: String,
    timestamp: u64,
    sequence_id: u64,
) -> (r: LogEntry)
    ensures
        r@ == (EntryView {
            function_name: function_name@,
            error_message: error_message@,
            traceback: traceback@,
            timestamp,
            sequence_id,
        }),
{
    LogEntry { function_name, error_message, traceback, timestamp, sequence_id }
}

/// The tag that heads every block the console sink writes.
pub open spec fn default_tag() -> Seq<char> {
    "PyLogRust Debug"@
}

/// The text block the console sink writes for an entry: a blank line, the
/// tagged function name, then the reason and the traceback verbatim.
pub open spec fn entry_text(tag: Seq<char>, e: EntryView) -> Seq<char> {
    "\n["@ + tag + "] "@ + e.function_name + "\n -> Reason: "@ + e.error_message
        + "\n -> Traceback:\n"@ + e.traceback
}

pub fn default_tag_string() -> (r: String)
    ensures
        r@ == default_tag(),
{
    let mut s = String::new();
    s.append("PyLogRust Debug");
    proof {
        assert(s@ =~= default_tag());
    }
    s
}

/// Formats an entry as the console sink prints it.
pub fn format_entry(tag: &str, e: &LogEntry) -> (r: String)
    ensures
        r@ == entry_text(tag@, e@),
{
    let mut s = String::new();
    s.append("\n[");
    s.append(tag);
    s.append("] ");
    s.append(e.function_name.as_str());
    s.append("\n -> Reason: ");
    s.append(e.error_message.as_str());
    s.append("\n -> Traceback:\n");
    s.append(e.traceback.as_str());
    proof {
        assert(s@ =~= entry_text(tag@, e@));
    }
    s
}

} // verus!
