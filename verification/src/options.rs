//! Decisions of the surrounding converter program, kept as pure functions:
//! format names, input-format detection from file signatures, verbosity
//! mapping, port occupancy, and the round-trip-verification policy.  The
//! I/O they steer — argument parsing, reading, writing, logging — lives
//! with the caller.

use vstd::prelude::*;
use vstd::string::StringExecFns;

verus! {

/// Serialization formats the converter reads or writes.
#[derive(Clone, Copy, Debug, PartialEq, Eq, Structural)]
pub enum Format {
    Json,
    Peppi,
    Slippi,
    Null,
}

/// Output compression methods.
#[derive(Clone, Copy, Debug, PartialEq, Eq, Structural)]
pub enum Compression {
    Lz4,
    Zstd,
}

/// Log-level filter chosen from the verbosity count.
#[derive(Clone, Copy, Debug, PartialEq, Eq, Structural)]
pub enum LevelFilter {
    Warn,
    Info,
    Debug,
    Trace,
}

/// Severity of a log line.
#[derive(Clone, Copy, Debug, PartialEq, Eq, Structural)]
pub enum Level {
    Info,
    Warn,
}

/// Signature bytes every replay file of the event-stream format starts
/// with.
pub const SLIPPI_FILE_SIGNATURE: [u8; 11] = [
    0x7b,
    0x55,
    0x03,
    0x72,
    0x61,
    0x77,
    0x5b,
    0x24,
    0x55,
    0x23,
    0x6c,
];

/// Signature bytes every replay file of the columnar container format
/// starts with.
pub const PEPPI_FILE_SIGNATURE: [u8; 10] = [
    0x70,
    0x65,
    0x70,
    0x70,
    0x69,
    0x2e,
    0x6a,
    0x73,
    0x6f,
    0x6e,
];

/// Resident-character identifier (in the game-start block) of the paired
/// character, whose ports carry follower data.
pub const ICE_CLIMBERS: u8 = 14;

/// What a format name parses to.
pub open spec fn parse_format(s: Seq<char>) -> Result<Format, Seq<char>> {
    if s == "json"@ {
        Ok(Format::Json)
    } else if s == "peppi"@ {
        Ok(Format::Peppi)
    } else if s == "slippi"@ {
        Ok(Format::Slippi)
    } else if s == "null"@ {
        Ok(Format::Null)
    } else {
        Err("invalid format: "@ + s)
    }
}

/// What a compression name parses to.
pub open spec fn parse_compression_spec(s: Seq<char>) -> Result<Compression, Seq<char>> {
    if s == "lz4"@ {
        Ok(Compression::Lz4)
    } else if s == "zstd"@ {
        Ok(Compression::Zstd)
    } else {
        Err("invalid compression: "@ + s)
    }
}

/// String equality by characters.
fn eq_str(a: &str, b: &str) -> (r: bool)
    ensures
        r == (a@ == b@),
{
    let sa = a.to_owned();
    let sb = b.to_owned();
    sa == sb
}

impl Format {
    /// Parses a format name, with the exact error message for anything
    /// else.
    pub fn try_from(s: &str) -> (r: Result<Format, String>)
        ensures
            match (r, parse_format(s@)) {
                (Ok(a), Ok(b)) => a == b,
                (Err(a), Err(b)) => a@ == b,
                _ => false,
            },
    {
        if eq_str(s, "json") {
            Ok(Format::Json)
        } else if eq_str(s, "peppi") {
            Ok(Format::Peppi)
        } else if eq_str(s, "slippi") {
            Ok(Format::Slippi)
        } else if eq_str(s, "null") {
            Ok(Format::Null)
        } else {
            let mut msg = String::from_str("invalid format: ");
            msg.append(s);
            Err(msg)
        }
    }
}

/// Parses a compression name, with the exact error message for anything
/// else.
pub fn parse_compression(s: &str) -> (r: Result<Compression, String>)
    ensures
        match (r, parse_compression_spec(s@)) {
            (Ok(a), Ok(b)) => a == b,
            (Err(a), Err(b)) => a@ == b,
            _ => false,
        },
{
    if eq_str(s, "lz4") {
        Ok(Compression::Lz4)
    } else if eq_str(s, "zstd") {
        Ok(Compression::Zstd)
    } else {
        let mut msg = String::from_str("invalid compression: ");
        msg.append(s);
        Err(msg)
    }
}

/// The log-level filter each verbosity count selects.
pub open spec fn log_level_spec(verbosity: u8) -> LevelFilter {
    if verbosity == 0 {
        LevelFilter::Warn
    } else if verbosity == 1 {
        LevelFilter::Info
    } else if verbosity == 2 {
        LevelFilter::Debug
    } else {
        LevelFilter::Trace
    }
}

/// Maps the verbosity count to the log-level filter.
pub fn log_level(verbosity: u8) -> (r: LevelFilter)
    ensures
        r == log_level_spec(verbosity),
{
    match verbosity {
        0 => LevelFilter::Warn,
        1 => LevelFilter::Info,
        2 => LevelFilter::Debug,
        _ => LevelFilter::Trace,
    }
}

/// A byte reader whose backward seeks are never needed: forward seeks are
/// emulated by reading and discarding, which the surrounding program's
/// reader implementation does.
pub struct SkippingReader<R> {
    pub reader: R,
}

impl<R> SkippingReader<R> {
    /// Wraps a byte reader.
    pub fn new(reader: R) -> (r: Self)
        ensures
            r.reader == reader,
    {
        Self { reader }
    }
}

/// One player entry of the game-start block, as the occupancy decision
/// reads it: the port and the resident-character identifier.
pub struct PlayerStart {
    pub port: u8,
    pub character: u8,
}

/// One occupied port: its number and whether its resident character is the
/// paired one, so that the port carries follower data.
#[derive(Clone, Copy, Debug, PartialEq, Eq, Structural)]
pub struct PortOccupancy {
    pub port: u8,
    pub follower: bool,
}

/// Reads the game-start player list into per-port occupancy: a port has a
/// follower exactly when its resident character is [`ICE_CLIMBERS`].
pub fn port_occupancy(players: &Vec<PlayerStart>) -> (r: Vec<PortOccupancy>)
    ensures
        r@.len() == players@.len(),
        forall|i: int|
            0 <= i < players@.len() ==> #[trigger] r@[i] == (PortOccupancy {
                port: players@[i].port,
                follower: players@[i].character == ICE_CLIMBERS,
            }),
{
    let n = players.len();
    let mut r: Vec<PortOccupancy> = Vec::new();
    let mut i: usize = 0;
    while i < n
        invariant
            0 <= i <= n,
            n == players@.len(),
            r@.len() == i,
            forall|j: int|
                0 <= j < i ==> #[trigger] r@[j] == (PortOccupancy {
                    port: players@[j].port,
                    follower: players@[j].character == ICE_CLIMBERS,
                }),
        decreases n - i,
    {
        let p = &players[i];
        r.push(PortOccupancy { port: p.port, follower: p.character == ICE_CLIMBERS });
        i += 1;
    }
    r
}

/// Why round-trip verification is skipped, if it is: the reason to log and
/// the severity to log it at.
pub open spec fn skip_reason_spec(
    output_format: Format,
    skip_requested: bool,
    has_outfile: bool,
    short: bool,
) -> Option<(Seq<char>, Level)> {
    if output_format != Format::Peppi {
        Some(("non-Peppi output"@, Level::Info))
    } else if skip_requested {
        Some(("`--no-verify`"@, Level::Info))
    } else if !has_outfile {
        Some(("writing to STDOUT"@, Level::Warn))
    } else if short {
        Some(("`--short`"@, Level::Warn))
    } else {
        None
    }
}

/// Decides whether round-trip verification is skipped: only a full
/// columnar-container write to a real file can be verified against its
/// source.
pub fn skip_reason(output_format: Format, skip_requested: bool, has_outfile: bool, short: bool) -> (r:
    Option<(String, Level)>)
    ensures
        match (r, skip_reason_spec(output_format, skip_requested, has_outfile, short)) {
            (Some(a), Some(b)) => a.0@ == b.0 && a.1 == b.1,
            (None, None) => true,
            _ => false,
        },
{
    if output_format != Format::Peppi {
        Some((String::from_str("non-Peppi output"), Level::Info))
    } else if skip_requested {
        Some((String::from_str("`--no-verify`"), Level::Info))
    } else if !has_outfile {
        Some((String::from_str("writing to STDOUT"), Level::Warn))
    } else if short {
        Some((String::from_str("`--short`"), Level::Warn))
    } else {
        None
    }
}

/// `buf` begins with the bytes of `sig`.
pub open spec fn starts_with(buf: Seq<u8>, sig: Seq<u8>) -> bool {
    buf.len() >= sig.len() && buf.subrange(0, sig.len() as int) == sig
}

/// Whether `buf` begins with the bytes of `sig`.
fn slice_starts_with(buf: &[u8], sig: &[u8]) -> (r: bool)
    ensures
        r == starts_with(buf@, sig@),
{
    let m = sig.len();
    if buf.len() < m {
        proof {
            assert(!starts_with(buf@, sig@));
        }
        return false;
    }
    let mut i: usize = 0;
    while i < m
        invariant
            0 <= i <= m,
            m == sig@.len(),
            buf@.len() >= m,
            forall|j: int| 0 <= j < i ==> buf@[j] == sig@[j],
        decreases m - i,
    {
        if buf[i] != sig[i] {
            proof {
                assert(buf@.subrange(0, m as int)[i as int] != sig@[i as int]);
            }
            return false;
        }
        i += 1;
    }
    proof {
        assert(buf@.subrange(0, m as int) =~= sig@);
    }
    true
}

/// What format the first bytes of a replay file announce, when the caller
/// requested no explicit input format.
pub open spec fn detect_format_spec(buf: Seq<u8>, requested: Option<Format>) -> Result<
    Format,
    Seq<char>,
> {
    match requested {
        Some(f) => Ok(f),
        None => {
            if starts_with(buf, SLIPPI_FILE_SIGNATURE@) {
                Ok(Format::Slippi)
            } else if starts_with(buf, PEPPI_FILE_SIGNATURE@) {
                Ok(Format::Peppi)
            } else {
                Err("unknown file format"@)
            }
        },
    }
}

/// Detects the input format: the requested one if any, else by the file
/// signature at the start of the buffered input, with the exact error for
/// an unrecognizable file.
pub fn detect_format(buf: &[u8], requested: Option<Format>) -> (r: Result<Format, String>)
    ensures
        match (r, detect_format_spec(buf@, requested)) {
            (Ok(a), Ok(b)) => a == b,
            (Err(a), Err(b)) => a@ == b,
            _ => false,
        },
{
    match requested {
        Some(f) => Ok(f),
        None => {
            let slippi_sig = SLIPPI_FILE_SIGNATURE;
            let peppi_sig = PEPPI_FILE_SIGNATURE;
            if slice_starts_with(buf, slippi_sig.as_slice()) {
                Ok(Format::Slippi)
            } else if slice_starts_with(buf, peppi_sig.as_slice()) {
                Ok(Format::Peppi)
            } else {
                Err(String::from_str("unknown file format"))
            }
        },
    }
}

} // verus!
