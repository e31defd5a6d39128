//! The GPS receiver's NMEA stream: what each parse result is, and the log line
//! the firmware writes for it.
use vstd::prelude::*;
use nmea0183::ParseResult::{GGA, GLL, GSA, GSV, RMC, VTG, ZDA};
use vstd::string::StringExecFns;

verus! {

#[verifier::external_type_specification]
#[verifier::external_body]
pub struct ExNmeaParser(nmea0183::Parser);

/// The sentence of an NMEA parse result, one variant for each variant of
/// `nmea0183::ParseResult`. A sentence that the receiver sent without valid
/// data (the parser's `None`) is kept as such: RMC and GGA carry the `Debug`
/// text of their data where there is data, the others whether there is data.
#[derive(Debug)]
pub enum NmeaResult {
    Rmc(Option<String>),
    Gga(Option<String>),
    Gll(bool),
    Vtg(bool),
    Gsv(bool),
    Gsa(bool),
    Zda(bool),
}

/// One item that the NMEA parser yields, as plain values.
#[derive(Debug)]
pub enum NmeaReading {
    /// A parsed sentence: the `Debug` text of the whole parse result, and the
    /// sentence.
    Parsed(String, NmeaResult),
    /// A malformed sentence: the `Debug` text of the parser's error message.
    Error(String),
}

/// Calls `nmea0183::Parser::parse_from_bytes` on `chunk` and converts each
/// item it yields, one for one, into an `NmeaReading`. The contract claims
/// what the crate's source shows: each item consumes at least one byte of the
/// chunk. Which items come out depends also on the bytes the parser kept from
/// earlier chunks, which its state holds, so nothing more is stated of them.
#[verifier::external_body]
fn parse_nmea(parser: &mut nmea0183::Parser, chunk: &[u8]) -> (r: Vec<NmeaReading>)
    ensures
        r@.len() <= chunk@.len(),
{
    let mut out = Vec::new();
    for res in parser.parse_from_bytes(chunk) {
        out.push(match res {
            Err(e) => NmeaReading::Error(format!("{e:?}")),
            Ok(r) => NmeaReading::Parsed(format!("{r:?}"), match r {
                RMC(d) => NmeaResult::Rmc(d.map(|x| format!("{x:?}"))),
                GGA(d) => NmeaResult::Gga(d.map(|x| format!("{x:?}"))),
                GLL(d) => NmeaResult::Gll(d.is_some()),
                VTG(d) => NmeaResult::Vtg(d.is_some()),
                GSV(d) => NmeaResult::Gsv(d.is_some()),
                GSA(d) => NmeaResult::Gsa(d.is_some()),
                ZDA(d) => NmeaResult::Zda(d.is_some()),
            }) });
    }
    out
}

/// Feeds a chunk of bytes from the GPS UART to the NMEA parser and returns the
/// items it completes, at most one per byte.
pub fn parse_gps_chunk(parser: &mut nmea0183::Parser, chunk: &[u8]) -> (r: Vec<NmeaReading>)
    ensures
        r@.len() <= chunk@.len(),
{
    parse_nmea(parser, chunk)
}

/// How the GPS task logs a parse result.
#[derive(Clone, Copy, Debug, PartialEq, Eq, Structural)]
pub enum GpsKind {
    /// An RMC sentence with data.
    Rmc,
    /// A GGA sentence with data.
    Gga,
    /// Any other sentence, or an RMC or GGA sentence without data.
    Other,
    /// A malformed sentence.
    Error,
}

/// Which kind a parse result is logged as: RMC and GGA sentences with data
/// have their own, every other sentence is `Other`, and parser errors are
/// `Error`.
pub open spec fn spec_gps_kind(r: NmeaReading) -> GpsKind {
    match r {
        NmeaReading::Error(_) => GpsKind::Error,
        NmeaReading::Parsed(_, NmeaResult::Rmc(Some(_))) => GpsKind::Rmc,
        NmeaReading::Parsed(_, NmeaResult::Gga(Some(_))) => GpsKind::Gga,
        NmeaReading::Parsed(_, _) => GpsKind::Other,
    }
}

/// What the log line of a parse result shows after its prefix: the data of an
/// RMC or GGA sentence with data, the whole result of any other sentence, or
/// the error message.
pub open spec fn gps_log_body(r: NmeaReading) -> Seq<char> {
    match r {
        NmeaReading::Error(e) => e@,
        NmeaReading::Parsed(_, NmeaResult::Rmc(Some(d))) => d@,
        NmeaReading::Parsed(_, NmeaResult::Gga(Some(d))) => d@,
        NmeaReading::Parsed(t, _) => t@,
    }
}

/// The kind a parse result is logged as.
pub fn gps_kind(r: &NmeaReading) -> (k: GpsKind)
    ensures
        k == spec_gps_kind(*r),
        (k == GpsKind::Error) <==> (*r is Error),
{
    match r {
        NmeaReading::Error(_) => GpsKind::Error,
        NmeaReading::Parsed(_, NmeaResult::Rmc(Some(_))) => GpsKind::Rmc,
        NmeaReading::Parsed(_, NmeaResult::Gga(Some(_))) => GpsKind::Gga,
        NmeaReading::Parsed(_, _) => GpsKind::Other,
    }
}

/// Only a parser error is logged as an error, and at warning level: every
/// parsed sentence, whatever its type and data, is logged at info level, as
/// `Other` unless it is an RMC or GGA sentence with data, which keep their own
/// kind.
pub proof fn lemma_gps_kind_of_results(r: NmeaReading)
    ensures
        (spec_gps_kind(r) == GpsKind::Error) <==> (r is Error),
        (gps_log_level(spec_gps_kind(r)) == LogLevel::Warn) <==> (r is Error),
        r matches NmeaReading::Parsed(_, NmeaResult::Rmc(Some(_))) ==> spec_gps_kind(r)
            == GpsKind::Rmc,
        r matches NmeaReading::Parsed(_, NmeaResult::Gga(Some(_))) ==> spec_gps_kind(r)
            == GpsKind::Gga,
        r matches NmeaReading::Parsed(_, res) ==> !(res matches NmeaResult::Rmc(Some(_)))
            && !(res matches NmeaResult::Gga(Some(_))) ==> spec_gps_kind(r) == GpsKind::Other,
{
}

/// How loud a log line is.
#[derive(Clone, Copy, Debug, PartialEq, Eq, Structural)]
pub enum LogLevel {
    Info,
    Warn,
}

/// A line for the firmware log.
pub struct LogLine {
    pub level: LogLevel,
    pub text: String,
}

/// The level of the log line for a result of kind `k`: errors warn.
pub open spec fn gps_log_level(k: GpsKind) -> LogLevel {
    match k {
        GpsKind::Error => LogLevel::Warn,
        _ => LogLevel::Info,
    }
}

/// The text that starts the log line for a result of kind `k`.
pub open spec fn gps_log_prefix(k: GpsKind) -> Seq<char> {
    match k {
        GpsKind::Rmc => "[GPS] RMC: "@,
        GpsKind::Gga => "[GPS] GGA: "@,
        GpsKind::Other => "[GPS] "@,
        GpsKind::Error => "[GPS] Error: "@,
    }
}

/// The log line for one parse result: its level, and the prefix of its kind
/// followed by its body.
pub fn gps_log_line(r: &NmeaReading) -> (l: LogLine)
    ensures
        l.level == gps_log_level(spec_gps_kind(*r)),
        (l.level == LogLevel::Warn) <==> (*r is Error),
        l.text@ == gps_log_prefix(spec_gps_kind(*r)) + gps_log_body(*r),
{
    let (level, mut text, body) = match r {
        NmeaReading::Error(e) => (LogLevel::Warn, String::from_str("[GPS] Error: "), e),
        NmeaReading::Parsed(_, NmeaResult::Rmc(Some(d))) => (LogLevel::Info, String::from_str("[GPS] RMC: "), d),
        NmeaReading::Parsed(_, NmeaResult::Gga(Some(d))) => (LogLevel::Info, String::from_str("[GPS] GGA: "), d),
        NmeaReading::Parsed(t, _) => (LogLevel::Info, String::from_str("[GPS] "), t),
    };
    text.append(body.as_str());
    LogLine { level, text }
}

/// The log lines for a run of parse results, one per result, in order.
pub fn gps_log_lines(readings: &Vec<NmeaReading>) -> (lines: Vec<LogLine>)
    ensures
        lines@.len() == readings@.len(),
        forall|i: int|
            0 <= i < lines@.len() ==> #[trigger] lines@[i].level == gps_log_level(
                spec_gps_kind(readings@[i]),
            ) && lines@[i].text@ == gps_log_prefix(spec_gps_kind(readings@[i])) + gps_log_body(
                readings@[i],
            ),
{
    let mut lines: Vec<LogLine> = Vec::new();
    let mut i: usize = 0;
    while i < readings.len()
        invariant
            i <= readings@.len(),
            lines@.len() == i,
            forall|j: int|
                0 <= j < i ==> #[trigger] lines@[j].level == gps_log_level(
                    spec_gps_kind(readings@[j]),
                ) && lines@[j].text@ == gps_log_prefix(spec_gps_kind(readings@[j]))
                    + gps_log_body(readings@[j]),
        decreases readings@.len() - i,
    {
        lines.push(gps_log_line(&readings[i]));
        i = i + 1;
    }
    lines
}

} // verus!
