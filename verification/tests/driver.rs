//! Driver decisions: format parsing and detection, verbosity, occupancy,
//! and the round-trip-verification policy.

use slp::options::{
    detect_format, log_level, parse_compression, port_occupancy, skip_reason, Compression, Format,
    Level, LevelFilter, PlayerStart, PortOccupancy, SkippingReader, ICE_CLIMBERS,
    PEPPI_FILE_SIGNATURE, SLIPPI_FILE_SIGNATURE,
};

#[test]
fn format_names_parse() {
    assert_eq!(Format::try_from("json"), Ok(Format::Json));
    assert_eq!(Format::try_from("peppi"), Ok(Format::Peppi));
    assert_eq!(Format::try_from("slippi"), Ok(Format::Slippi));
    assert_eq!(Format::try_from("null"), Ok(Format::Null));
    assert_eq!(
        Format::try_from("rust"),
        Err("invalid format: rust".to_string())
    );
}

#[test]
fn compression_names_parse() {
    assert_eq!(parse_compression("lz4"), Ok(Compression::Lz4));
    assert_eq!(parse_compression("zstd"), Ok(Compression::Zstd));
    assert_eq!(
        parse_compression("gzip"),
        Err("invalid compression: gzip".to_string())
    );
}

#[test]
fn verbosity_maps_to_level_filter() {
    assert_eq!(log_level(0), LevelFilter::Warn);
    assert_eq!(log_level(1), LevelFilter::Info);
    assert_eq!(log_level(2), LevelFilter::Debug);
    assert_eq!(log_level(3), LevelFilter::Trace);
    assert_eq!(log_level(200), LevelFilter::Trace);
}

#[test]
fn skipping_reader_wraps_its_reader() {
    let r = SkippingReader::new(42u8);
    assert_eq!(r.reader, 42);
}

#[test]
fn occupancy_marks_paired_character_ports() {
    let players = vec![
        PlayerStart { port: 0, character: ICE_CLIMBERS },
        PlayerStart { port: 1, character: 2 },
    ];
    let occ = port_occupancy(&players);
    assert_eq!(
        occ,
        vec![
            PortOccupancy { port: 0, follower: true },
            PortOccupancy { port: 1, follower: false },
        ]
    );
}

#[test]
fn skip_reason_policy() {
    assert_eq!(
        skip_reason(Format::Json, false, true, false),
        Some(("non-Peppi output".to_string(), Level::Info))
    );
    assert_eq!(
        skip_reason(Format::Peppi, true, true, false),
        Some(("`--no-verify`".to_string(), Level::Info))
    );
    assert_eq!(
        skip_reason(Format::Peppi, false, false, false),
        Some(("writing to STDOUT".to_string(), Level::Warn))
    );
    assert_eq!(
        skip_reason(Format::Peppi, false, true, true),
        Some(("`--short`".to_string(), Level::Warn))
    );
    assert_eq!(skip_reason(Format::Peppi, false, true, false), None);
}

#[test]
fn format_detection_by_signature() {
    let mut slippi = SLIPPI_FILE_SIGNATURE.to_vec();
    slippi.extend_from_slice(&[1, 2, 3]);
    assert_eq!(detect_format(&slippi, None), Ok(Format::Slippi));

    let peppi = PEPPI_FILE_SIGNATURE.to_vec();
    assert_eq!(detect_format(&peppi, None), Ok(Format::Peppi));

    assert_eq!(
        detect_format(&[0u8; 4], None),
        Err("unknown file format".to_string())
    );
    // An explicit request wins over the signature.
    assert_eq!(detect_format(&slippi, Some(Format::Peppi)), Ok(Format::Peppi));
}
