use vstd::prelude::*;

verus! {

/// The journal field that names the unit an entry belongs to.
pub const UNIT_FIELD: &'static str = "_SYSTEMD_UNIT";

/// The journal field that holds an entry's text.
pub const MESSAGE_FIELD: &'static str = "MESSAGE";

/// The line published once the reader is live.
pub const STARTUP_LINE: &'static str = "starting up";

/// Seconds the reader waits before it polls an exhausted journal again.
pub const POLL_INTERVAL_SECS: u64 = 1;

/// What one read of the journal gave.
pub enum JournalEvent {
    /// An entry, with its unit and message fields where present.
    Entry { unit: Option<String>, message: Option<String> },
    /// No entry is pending yet.
    Exhausted,
    /// The journal could not be read.
    Failed,
}

/// What the reader does next.
pub enum ReaderAction {
    /// Publish the line on the bus, then read again.
    Publish(String),
    /// Drop the entry, then read again.
    Skip,
    /// Sleep this many seconds, then read again.
    Wait(u64),
    /// Stop reading.
    Stop,
}

/// An optional field, read as the empty text where it is absent.
pub open spec fn field_text(v: Option<String>) -> Seq<char> {
    match v {
        Some(s) => s@,
        None => Seq::empty(),
    }
}

/// Whether `r` is the reader's answer to `event`, for the unit `target`: an
/// entry of that exact unit is published with its message, any other entry is
/// dropped, an exhausted journal is polled again after the interval, and a
/// failed read stops the reader.
pub open spec fn answers(target: Seq<char>, event: JournalEvent, r: ReaderAction) -> bool {
    match event {
        JournalEvent::Entry { unit, message } => if field_text(unit) == target {
            r is Publish && r->Publish_0@ == field_text(message)
        } else {
            r is Skip
        },
        JournalEvent::Exhausted => r == ReaderAction::Wait(POLL_INTERVAL_SECS),
        JournalEvent::Failed => r is Stop,
    }
}

fn text_or_empty(v: Option<String>) -> (r: String)
    ensures
        r@ == field_text(v),
{
    match v {
        Some(s) => s,
        None => String::new(),
    }
}

fn unit_matches(unit: &Option<String>, target: &String) -> (r: bool)
    ensures
        r == (field_text(*unit) == target@),
{
    match unit {
        Some(u) => u.eq(target),
        None => {
            let n = target.unicode_len();
            proof {
                if n == 0 {
                    assert(target@ =~= Seq::<char>::empty());
                }
            }
            n == 0
        },
    }
}

/// The first action of a reader: announce on the bus that it is live.
pub fn startup_action() -> (r: ReaderAction)
    ensures
        r is Publish,
        r->Publish_0@ == STARTUP_LINE@,
{
    ReaderAction::Publish(String::from_str(STARTUP_LINE))
}

/// Decides what the reader does with one read of the journal.
pub fn reader_step(target: &String, event: JournalEvent) -> (r: ReaderAction)
    ensures
        answers(target@, event, r),
{
    match event {
        JournalEvent::Entry { unit, message } => {
            if unit_matches(&unit, target) {
                ReaderAction::Publish(text_or_empty(message))
            } else {
                ReaderAction::Skip
            }
        },
        JournalEvent::Exhausted => ReaderAction::Wait(POLL_INTERVAL_SECS),
        JournalEvent::Failed => ReaderAction::Stop,
    }
}

} // verus!
