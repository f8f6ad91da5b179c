//! Event-log (EVTX) records.
//!
//! The container format is parsed by the evtx crate. Each record comes out
//! on its own: a record that cannot be read is reported in its place, and the
//! records after it are still read.

use vstd::prelude::*;

use crate::wintime::{WinTimestamp, MAX_MICROS};

verus! {

/// Microseconds from 1601-01-01T00:00:00 UTC to the Unix epoch.
pub const UNIX_EPOCH_MICROS: u64 = 11644473600000000;

/// One event-log record: its id, its time, and its event as XML text.
pub struct EvtxRecord {
    pub event_record_id: u64,
    pub timestamp: WinTimestamp,
    pub data: String,
}

/// Why a record, or the whole log, could not be read.
#[derive(Debug)]
pub enum RecordError {
    /// The evtx parser rejected the data; its message.
    Malformed { message: String },
    /// The record's time lies outside what a FILETIME can express.
    TimestampOutOfRange { unix_micros: i64 },
}

/// The outcome of parsing an event log, as evtx reports it: each record as
/// (id, Unix microseconds, XML), or the message of its error; or the message
/// of the error that stopped the whole log.
pub type ParsedLog = Result<Seq<Result<(u64, int, Seq<char>), Seq<char>>>, Seq<char>>;

/// What evtx's parser gives for an event log held in `buffer`.
pub uninterp spec fn evtx_parse_of(buffer: Seq<u8>) -> ParsedLog;

/// The plain view of one parsed record.
pub open spec fn raw_record_view(x: Result<(u64, i64, String), String>) -> Result<
    (u64, int, Seq<char>),
    Seq<char>,
> {
    match x {
        Ok((id, t, xml)) => Ok((id, t as int, xml@)),
        Err(m) => Err(m@),
    }
}

/// The plain view of a parsed log.
pub open spec fn parsed_log_view(r: Result<Vec<Result<(u64, i64, String), String>>, String>) -> ParsedLog {
    match r {
        Ok(v) => Ok(v@.map_values(|x: Result<(u64, i64, String), String>| raw_record_view(x))),
        Err(m) => Err(m@),
    }
}

/// Relies on `evtx::EvtxParser::from_buffer` and `EvtxParser::records`: every
/// record in file order, with its id, its time as Unix microseconds
/// (`jiff::Timestamp::as_microsecond`) and its XML, or the error's message.
/// The result depends on the bytes alone.
#[verifier::external_body]
fn evtx_parse(buffer: Vec<u8>) -> (r: Result<Vec<Result<(u64, i64, String), String>>, String>)
    ensures
        parsed_log_view(r) == evtx_parse_of(buffer@),
{
    match evtx::EvtxParser::from_buffer(buffer) {
        Ok(mut parser) => Ok(
            parser.records().map(
                |rec| rec.map(|x| (x.event_record_id, x.timestamp.as_microsecond(), x.data)).map_err(
                    |e| e.to_string(),
                ),
            ).collect(),
        ),
        Err(e) => Err(e.to_string()),
    }
}

/// The Windows timestamp of an instant given in Unix microseconds, if a
/// FILETIME can express it.
pub open spec fn unix_to_win_micros(unix_micros: int) -> Option<WinTimestamp> {
    let w = unix_micros + UNIX_EPOCH_MICROS;
    if 0 <= w && w <= MAX_MICROS {
        Some(WinTimestamp { micros: w as u64 })
    } else {
        None
    }
}

impl WinTimestamp {
    /// The timestamp of an instant given in Unix microseconds; `None` before
    /// 1601 or past the FILETIME range.
    pub fn from_unix_micros(unix_micros: i64) -> (r: Option<WinTimestamp>)
        ensures
            r == unix_to_win_micros(unix_micros as int),
    {
        if unix_micros >= 0 {
            let u = unix_micros as u64;
            if u > MAX_MICROS - UNIX_EPOCH_MICROS {
                None
            } else {
                Some(WinTimestamp { micros: u + UNIX_EPOCH_MICROS })
            }
        } else {
            let back = (0 - (unix_micros as i128)) as u64;
            if back > UNIX_EPOCH_MICROS {
                None
            } else {
                Some(WinTimestamp { micros: UNIX_EPOCH_MICROS - back })
            }
        }
    }
}

/// `rec` is what the library makes of the parsed record `raw`.
pub open spec fn record_of(raw: Result<(u64, int, Seq<char>), Seq<char>>, rec: Result<EvtxRecord, RecordError>) -> bool {
    match raw {
        Err(m) => rec matches Err(RecordError::Malformed { message }) && message@ == m,
        Ok((id, t, xml)) => match unix_to_win_micros(t) {
            None => rec matches Err(RecordError::TimestampOutOfRange { unix_micros }) && unix_micros == t,
            Some(ts) => rec matches Ok(r) && r.event_record_id == id && r.timestamp == ts && r.data@ == xml,
        },
    }
}

/// Reads every record of an event log held in memory, in file order. A
/// record that cannot be read stands as an `Err` in its place; the records
/// after it are still read. The whole log fails only where evtx cannot open
/// it.
pub fn read_records(buffer: Vec<u8>) -> (r: Result<Vec<Result<EvtxRecord, RecordError>>, RecordError>)
    ensures
        match evtx_parse_of(buffer@) {
            Err(m) => r matches Err(RecordError::Malformed { message }) && message@ == m,
            Ok(raws) => r matches Ok(recs) && recs@.len() == raws.len() && forall|i: int|
                0 <= i < raws.len() ==> record_of(raws[i], #[trigger] recs@[i]),
        },
{
    match evtx_parse(buffer) {
        Err(m) => Err(RecordError::Malformed { message: m }),
        Ok(raws) => {
            let ghost orig = raws@;
            let mut out: Vec<Result<EvtxRecord, RecordError>> = Vec::new();
            let mut rest = raws;
            while rest.len() > 0
                invariant
                    out@.len() + rest@.len() == orig.len(),
                    rest@ == orig.subrange(out@.len() as int, orig.len() as int),
                    forall|i: int|
                        0 <= i < out@.len() ==> record_of(raw_record_view(orig[i]), #[trigger] out@[i]),
                decreases rest.len(),
            {
                let raw = rest.remove(0);
                let rec = match raw {
                    Err(m) => Err(RecordError::Malformed { message: m }),
                    Ok((id, t, xml)) => match WinTimestamp::from_unix_micros(t) {
                        None => Err(RecordError::TimestampOutOfRange { unix_micros: t }),
                        Some(ts) => Ok(EvtxRecord { event_record_id: id, timestamp: ts, data: xml }),
                    },
                };
                out.push(rec);
            }
            Ok(out)
        },
    }
}

/// Reading a log keeps every record in its place: a record that the parser
/// could not read, or whose time a FILETIME cannot express, stands as an
/// error where it was; every other record stands there as a record with its
/// id and XML, whatever comes before or after it.
pub proof fn lemma_records_keep_their_place(
    raws: Seq<Result<(u64, int, Seq<char>), Seq<char>>>,
    recs: Seq<Result<EvtxRecord, RecordError>>,
)
    requires
        recs.len() == raws.len(),
        forall|i: int| 0 <= i < raws.len() ==> record_of(raws[i], #[trigger] recs[i]),
    ensures
        forall|i: int|
            0 <= i < raws.len() ==> ((#[trigger] recs[i] is Err) <==> (raws[i] is Err
                || unix_to_win_micros(raws[i]->Ok_0.1) is None)),
        forall|i: int|
            0 <= i < raws.len() && raws[i] is Ok && unix_to_win_micros(raws[i]->Ok_0.1) is Some
                ==> (#[trigger] recs[i] matches Ok(r) && r.event_record_id == raws[i]->Ok_0.0
                && r.data@ == raws[i]->Ok_0.2),
{
    assert forall|i: int| 0 <= i < raws.len() implies ((#[trigger] recs[i] is Err) <==> (raws[i] is Err
        || unix_to_win_micros(raws[i]->Ok_0.1) is None)) by {
        assert(record_of(raws[i], recs[i]));
    }
    assert forall|i: int|
        0 <= i < raws.len() && raws[i] is Ok && unix_to_win_micros(raws[i]->Ok_0.1) is Some
            implies (#[trigger] recs[i] matches Ok(r) && r.event_record_id == raws[i]->Ok_0.0
            && r.data@ == raws[i]->Ok_0.2) by {
        assert(record_of(raws[i], recs[i]));
    }
}

} // verus!
