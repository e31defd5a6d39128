use skiboot::gps::{
    gps_kind, gps_log_line, gps_log_lines, parse_gps_chunk, GpsKind, LogLevel, NmeaReading,
    NmeaResult,
};

fn parsed(text: &str, r: NmeaResult) -> NmeaReading {
    NmeaReading::Parsed(text.to_string(), r)
}

#[test]
fn kinds_of_results() {
    assert_eq!(gps_kind(&parsed("t", NmeaResult::Rmc(Some("d".to_string())))), GpsKind::Rmc);
    assert_eq!(gps_kind(&parsed("t", NmeaResult::Gga(Some("d".to_string())))), GpsKind::Gga);
    assert_eq!(gps_kind(&parsed("t", NmeaResult::Rmc(None))), GpsKind::Other);
    assert_eq!(gps_kind(&parsed("t", NmeaResult::Gga(None))), GpsKind::Other);
    assert_eq!(gps_kind(&parsed("t", NmeaResult::Gll(true))), GpsKind::Other);
    assert_eq!(gps_kind(&parsed("t", NmeaResult::Vtg(true))), GpsKind::Other);
    assert_eq!(gps_kind(&parsed("t", NmeaResult::Gsv(false))), GpsKind::Other);
    assert_eq!(gps_kind(&parsed("t", NmeaResult::Gsa(true))), GpsKind::Other);
    assert_eq!(gps_kind(&parsed("t", NmeaResult::Zda(true))), GpsKind::Other);
    assert_eq!(gps_kind(&NmeaReading::Error("e".to_string())), GpsKind::Error);
}

#[test]
fn log_line_texts() {
    let l = gps_log_line(&parsed("RMC(Some(x))", NmeaResult::Rmc(Some("x".to_string()))));
    assert_eq!(l.level, LogLevel::Info);
    assert_eq!(l.text, "[GPS] RMC: x");
    let l = gps_log_line(&parsed("GGA(Some(y))", NmeaResult::Gga(Some("y".to_string()))));
    assert_eq!(l.text, "[GPS] GGA: y");
    let l = gps_log_line(&parsed("RMC(None)", NmeaResult::Rmc(None)));
    assert_eq!((l.level, l.text.as_str()), (LogLevel::Info, "[GPS] RMC(None)"));
    let l = gps_log_line(&parsed("GLL(z)", NmeaResult::Gll(true)));
    assert_eq!((l.level, l.text.as_str()), (LogLevel::Info, "[GPS] GLL(z)"));
    let l = gps_log_line(&NmeaReading::Error("\"bad\"".to_string()));
    assert_eq!((l.level, l.text.as_str()), (LogLevel::Warn, "[GPS] Error: \"bad\""));
}

#[test]
fn parses_gga_and_rmc() {
    let mut parser = nmea0183::Parser::new();
    let chunk = b"$GPGGA,123519,4807.038,N,01131.000,E,1,08,0.9,545.4,M,46.9,M,,*47\r\n$GPRMC,123519,A,4807.038,N,01131.000,E,022.4,084.4,230394,003.1,W*6A\r\n";
    let r = parse_gps_chunk(&mut parser, chunk);
    assert!(r.len() <= chunk.len());
    let kinds: Vec<GpsKind> = r.iter().map(gps_kind).collect();
    assert_eq!(kinds, vec![GpsKind::Gga, GpsKind::Rmc]);
    match &r[0] {
        NmeaReading::Parsed(text, NmeaResult::Gga(Some(data))) => {
            assert_eq!(*text, format!("GGA(Some({}))", data));
        }
        other => panic!("unexpected {:?}", other),
    }
    let lines = gps_log_lines(&r);
    assert_eq!(lines.len(), 2);
    assert!(lines[0].text.starts_with("[GPS] GGA: GGA {"));
    assert!(lines[1].text.starts_with("[GPS] RMC: RMC {"));
}

#[test]
fn sentence_split_across_chunks() {
    let mut parser = nmea0183::Parser::new();
    let first = parse_gps_chunk(&mut parser, b"$GPGGA,123519,4807.038,N,01131.000,E,1,");
    assert!(first.is_empty());
    let second = parse_gps_chunk(&mut parser, b"08,0.9,545.4,M,46.9,M,,*47\r\n");
    assert_eq!(second.len(), 1);
    assert_eq!(gps_kind(&second[0]), GpsKind::Gga);
}

#[test]
fn bad_checksum_is_an_error() {
    let mut parser = nmea0183::Parser::new();
    let r = parse_gps_chunk(&mut parser, b"$GPGGA,1*ZZ\r\n");
    assert_eq!(gps_kind(&r[0]), GpsKind::Error);
    let lines = gps_log_lines(&r);
    assert_eq!(lines[0].level, LogLevel::Warn);
    assert!(lines[0].text.starts_with("[GPS] Error: \""));
}

#[test]
fn empty_chunk_gives_nothing() {
    let mut parser = nmea0183::Parser::new();
    assert!(parse_gps_chunk(&mut parser, b"").is_empty());
    assert!(gps_log_lines(&Vec::new()).is_empty());
}
