//! Log-callback selection and severity routing.
//!
//! The native library reports log records with a numeric severity. At
//! creation time exactly one callback variant is registered with the native
//! handle, chosen from the configured minimum level; each variant filters the
//! records it receives and forwards the surviving ones to the host sink that
//! matches their severity.

use vstd::prelude::*;

verus! {

/// Severity of a single native log record, in increasing importance.
#[derive(Clone, Copy, PartialEq, Eq, Structural, Debug)]
pub enum Severity {
    DebugRecord,
    NoticeRecord,
    WarningRecord,
    ErrorRecord,
}

/// The callback variant registered with the native handle; each forwards
/// records at or above one minimum severity.
#[derive(Clone, Copy, PartialEq, Eq, Structural, Debug)]
pub enum CallbackVariant {
    DebugVariant,
    InfoVariant,
    WarningVariant,
    ErrorVariant,
}

/// The host logging sink a forwarded record is dispatched to.
#[derive(Clone, Copy, PartialEq, Eq, Structural, Debug)]
pub enum Sink {
    InfoSink,
    WarningSink,
    ErrorSink,
}

/// Rank of a record severity, for comparison against a variant's threshold.
pub open spec fn severity_rank(s: Severity) -> int {
    match s {
        Severity::DebugRecord => 0,
        Severity::NoticeRecord => 1,
        Severity::WarningRecord => 2,
        Severity::ErrorRecord => 3,
    }
}

/// Minimum severity rank a variant forwards.
pub open spec fn variant_threshold(v: CallbackVariant) -> int {
    match v {
        CallbackVariant::DebugVariant => 0,
        CallbackVariant::InfoVariant => 1,
        CallbackVariant::WarningVariant => 2,
        CallbackVariant::ErrorVariant => 3,
    }
}

/// The sink that matches a record severity: debug and notice records go to
/// the informational sink, warnings and errors to their own sinks.
pub open spec fn sink_for(s: Severity) -> Sink {
    match s {
        Severity::DebugRecord => Sink::InfoSink,
        Severity::NoticeRecord => Sink::InfoSink,
        Severity::WarningRecord => Sink::WarningSink,
        Severity::ErrorRecord => Sink::ErrorSink,
    }
}

/// Where a variant forwards a record of severity `s`: to the severity's own
/// sink when the record reaches the variant's threshold, nowhere otherwise.
pub open spec fn forwards_to(v: CallbackVariant, s: Severity) -> Option<Sink> {
    if severity_rank(s) >= variant_threshold(v) {
        Some(sink_for(s))
    } else {
        None
    }
}

/// Which variant the configured minimum level selects: levels 0 to 3 each
/// select exactly one variant, any other level (4 = disabled among them)
/// selects none.
pub open spec fn selection(level: int) -> Option<CallbackVariant> {
    if level == 0 {
        Some(CallbackVariant::DebugVariant)
    } else if level == 1 {
        Some(CallbackVariant::InfoVariant)
    } else if level == 2 {
        Some(CallbackVariant::WarningVariant)
    } else if level == 3 {
        Some(CallbackVariant::ErrorVariant)
    } else {
        None
    }
}

/// Chooses the callback variant for a configured minimum level.
pub fn select_callback(level: i64) -> (r: Option<CallbackVariant>)
    ensures
        r == selection(level as int),
{
    if level == 0 {
        Some(CallbackVariant::DebugVariant)
    } else if level == 1 {
        Some(CallbackVariant::InfoVariant)
    } else if level == 2 {
        Some(CallbackVariant::WarningVariant)
    } else if level == 3 {
        Some(CallbackVariant::ErrorVariant)
    } else {
        None
    }
}

/// Law: each of the levels 0 to 3 selects exactly one variant, distinct per
/// level, and level 4 selects none.
pub proof fn lemma_selection_exhaustive()
    ensures
        selection(0) == Some(CallbackVariant::DebugVariant),
        selection(1) == Some(CallbackVariant::InfoVariant),
        selection(2) == Some(CallbackVariant::WarningVariant),
        selection(3) == Some(CallbackVariant::ErrorVariant),
        selection(4) is None,
        forall|l: int| selection(l) is Some <==> 0 <= l <= 3,
{
}

/// The numeric severity encoding of the native library's log records: 0 is
/// debug, 2 notice, 3 warning, 4 error; every other value is unknown and
/// dropped.
pub open spec fn severity_of(level: int) -> Option<Severity> {
    if level == 0 {
        Some(Severity::DebugRecord)
    } else if level == 2 {
        Some(Severity::NoticeRecord)
    } else if level == 3 {
        Some(Severity::WarningRecord)
    } else if level == 4 {
        Some(Severity::ErrorRecord)
    } else {
        None
    }
}

/// Whether the forwarded line carries the debug tag: only the debug variant
/// tags, and only debug records.
pub open spec fn debug_tagged(v: CallbackVariant, s: Severity) -> bool {
    v is DebugVariant && s is DebugRecord
}

/// A record as handed to a host sink: the chosen sink and the full line.
pub struct ForwardedRecord {
    pub sink: Sink,
    pub line: String,
}

/// The forwarded line: the fixed source label, the debug tag when due, then
/// the rendered record body.
pub open spec fn forwarded_line(tagged: bool, body: Seq<char>) -> Seq<char> {
    if tagged {
        "LibVLC: [DEBUG] "@ + body
    } else {
        "LibVLC: "@ + body
    }
}

/// What routing one native record must yield: nothing for an unknown or
/// filtered severity, otherwise the severity's sink and the labelled line.
pub open spec fn route_ok(
    v: CallbackVariant,
    level: int,
    body: Seq<char>,
    r: Option<ForwardedRecord>,
) -> bool {
    match severity_of(level) {
        None => r is None,
        Some(s) => match forwards_to(v, s) {
            None => r is None,
            Some(sink) => match r {
                Some(rec) => rec.sink == sink && rec.line@ == forwarded_line(
                    debug_tagged(v, s),
                    body,
                ),
                None => false,
            },
        },
    }
}

/// Routes one native log record through the registered variant: decodes the
/// numeric severity, filters it against the variant's threshold, and renders
/// the line for the matching host sink. `body` is the record already
/// rendered by the native formatting convention; a formatting failure is
/// passed in as the empty body.
pub fn route_record(variant: CallbackVariant, native_level: i32, body: &str) -> (r: Option<
    ForwardedRecord,
>)
    ensures
        route_ok(variant, native_level as int, body@, r),
{
    let severity: Option<Severity> = if native_level == 0 {
        Some(Severity::DebugRecord)
    } else if native_level == 2 {
        Some(Severity::NoticeRecord)
    } else if native_level == 3 {
        Some(Severity::WarningRecord)
    } else if native_level == 4 {
        Some(Severity::ErrorRecord)
    } else {
        None
    };
    match severity {
        None => None,
        Some(s) => {
            let rank: i32 = match s {
                Severity::DebugRecord => 0,
                Severity::NoticeRecord => 1,
                Severity::WarningRecord => 2,
                Severity::ErrorRecord => 3,
            };
            let threshold: i32 = match variant {
                CallbackVariant::DebugVariant => 0,
                CallbackVariant::InfoVariant => 1,
                CallbackVariant::WarningVariant => 2,
                CallbackVariant::ErrorVariant => 3,
            };
            if rank >= threshold {
                let sink: Sink = match s {
                    Severity::DebugRecord => Sink::InfoSink,
                    Severity::NoticeRecord => Sink::InfoSink,
                    Severity::WarningRecord => Sink::WarningSink,
                    Severity::ErrorRecord => Sink::ErrorSink,
                };
                let tagged: bool = match (variant, s) {
                    (CallbackVariant::DebugVariant, Severity::DebugRecord) => true,
                    _ => false,
                };
                let mut line: String = if tagged {
                    String::from_str("LibVLC: [DEBUG] ")
                } else {
                    String::from_str("LibVLC: ")
                };
                line.append(body);
                Some(ForwardedRecord { sink, line })
            } else {
                None
            }
        }
    }
}

/// Law: the severity filtering table. A variant forwards exactly the records
/// whose severity reaches its threshold, and always to the sink matching the
/// record's severity, never to another.
pub proof fn lemma_severity_filtering(v: CallbackVariant, s: Severity)
    ensures
        forwards_to(v, s) is Some <==> severity_rank(s) >= variant_threshold(v),
        forwards_to(v, s) is Some ==> forwards_to(v, s) == Some(sink_for(s)),
        v is DebugVariant ==> forwards_to(v, s) == Some(sink_for(s)),
        s is ErrorRecord ==> forwards_to(v, s) == Some(Sink::ErrorSink),
        v is WarningVariant && s is DebugRecord ==> forwards_to(v, s) is None,
        v is WarningVariant && s is NoticeRecord ==> forwards_to(v, s) is None,
        v is WarningVariant && s is WarningRecord ==> forwards_to(v, s) == Some(Sink::WarningSink),
        v is ErrorVariant && !(s is ErrorRecord) ==> forwards_to(v, s) is None,
{
}

} // verus!
