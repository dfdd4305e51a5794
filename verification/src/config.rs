//! The plugin's options.

use vstd::prelude::*;
use crate::error::HodlError;
use crate::text::{
    chars_of, decimal, find, find_char, parse_u64, parse_unsigned, push_decimal, range_is,
    string_from_chars,
};

verus! {

/// Name of the option that sets the safety margin, in blocks, before an
/// HTLC's expiry.
pub const CLTV_DELTA_NAME: &'static str = "cltv-delta";

/// The margin used where the configuration names none.
pub const CLTV_DELTA_DEFAULT: u16 = 40;

/// Name of the option that sets the port of the service.
pub const GRPC_HODL_PORT_NAME: &'static str = "grpc-hodl-port";

/// The value of the port option that stands for "not configured".
pub const GRPC_HODL_PORT_DISABLED: i64 = -1;

/// Recognized options, each with its name and value.
#[derive(Debug)]
pub struct Config {
    pub cltv_delta: (String, u16),
}

impl Config {
    /// The configuration before any file was read: every option at its
    /// default.
    pub fn new() -> (c: Config)
        ensures
            c.cltv_delta.0@ == CLTV_DELTA_NAME@,
            c.cltv_delta.1 == CLTV_DELTA_DEFAULT,
    {
        Config { cltv_delta: (CLTV_DELTA_NAME.to_owned(), CLTV_DELTA_DEFAULT) }
    }
}

/// A line without a carriage return at its end.
pub open spec fn strip_cr(line: Seq<char>) -> Seq<char> {
    if line.len() > 0 && line.last() == '\r' {
        line.drop_last()
    } else {
        line
    }
}

/// The first line of a text: what stands before the first line feed,
/// without a carriage return before that line feed; the whole text where it
/// has no line feed.
pub open spec fn first_line(text: Seq<char>) -> Seq<char> {
    let end = find(text, '\n');
    if 0 <= end < text.len() {
        strip_cr(text.take(end))
    } else {
        text
    }
}

/// What follows the first line of a text.
pub open spec fn after_first_line(text: Seq<char>) -> Seq<char> {
    let end = find(text, '\n');
    if 0 <= end < text.len() {
        text.skip(end + 1)
    } else {
        Seq::empty()
    }
}

/// The name and the value that a line sets: what stands before and after
/// its equals sign, where it has exactly one.
pub open spec fn line_setting(line: Seq<char>) -> Option<(Seq<char>, Seq<char>)> {
    let at = find(line, '=');
    if 0 <= at < line.len() && find(line.skip(at + 1), '=') == line.len() - at - 1 {
        Some((line.take(at), line.skip(at + 1)))
    } else {
        None
    }
}

/// The value of the option `name` after one line, where it was `delta`
/// before: a line that sets `name` gives its value, which must be a `u16` in
/// decimal; any other line changes nothing.
pub open spec fn after_line(delta: u16, name: Seq<char>, line: Seq<char>) -> Result<
    u16,
    HodlError,
> {
    match line_setting(line) {
        Some((n, v)) => if n == name {
            match parse_unsigned(v, u16::MAX as nat) {
                Some(x) => Ok(x as u16),
                None => Err(HodlError::Parse),
            }
        } else {
            Ok(delta)
        },
        None => Ok(delta),
    }
}

/// The value of the option `name` after the lines of `text` were read in
/// order, and whether the reading stopped at a value that is no number. The
/// lines before that one have taken effect.
pub open spec fn configured(text: Seq<char>, name: Seq<char>, delta: u16) -> (
    u16,
    Result<(), HodlError>,
)
    decreases text.len(),
{
    if text.len() == 0 {
        (delta, Ok(()))
    } else {
        match after_line(delta, name, first_line(text)) {
            Err(e) => (delta, Err(e)),
            Ok(d) => configured(after_first_line(text), name, d),
        }
    }
}

/// The value of the option `name` after the line `v[from..to]`.
fn read_line(v: &Vec<char>, from: usize, to: usize, name: &Vec<char>, delta: u16) -> (r: Result<
    u16,
    HodlError,
>)
    requires
        from <= to <= v.len(),
    ensures
        r == after_line(delta, name@, v@.subrange(from as int, to as int)),
{
    let ghost line = v@.subrange(from as int, to as int);
    let at = find_char(v, from, to, '=');
    if at == to {
        return Ok(delta);
    }
    let second = find_char(v, at + 1, to, '=');
    proof {
        assert(line.skip(at - from + 1) =~= v@.subrange(at + 1, to as int));
        assert(line.take(at - from) =~= v@.subrange(from as int, at as int));
    }
    if second != to {
        return Ok(delta);
    }
    if !range_is(v, from, at, name) {
        return Ok(delta);
    }
    match parse_u64(v, at + 1, to) {
        Some(x) => if x <= 0xffff {
            Ok(x as u16)
        } else {
            Err(HodlError::Parse)
        },
        None => Err(HodlError::Parse),
    }
}

/// Reads the text of a configuration file into `config`. Each line of
/// the form `name=value` whose name is a recognized option sets it.
pub fn read_config(config: &mut Config, configfile: &str) -> (r: Result<(), HodlError>)
    ensures
        final(config).cltv_delta.0 == old(config).cltv_delta.0,
        (final(config).cltv_delta.1, r) == configured(
            configfile@,
            old(config).cltv_delta.0@,
            old(config).cltv_delta.1,
        ),
{
    let v = chars_of(configfile);
    let name = chars_of(config.cltv_delta.0.as_str());
    let n = v.len();
    let ghost text = configfile@;
    let ghost first = config.cltv_delta.1;
    let mut delta: u16 = config.cltv_delta.1;
    let mut pos: usize = 0;
    proof {
        assert(text.skip(0) =~= text);
    }
    while pos < n
        invariant
            pos <= n,
            n == v.len(),
            v@ == text,
            text == configfile@,
            first == old(config).cltv_delta.1,
            name@ == old(config).cltv_delta.0@,
            config.cltv_delta.0 == old(config).cltv_delta.0,
            configured(text, name@, first) == configured(text.skip(pos as int), name@, delta),
        decreases n - pos,
    {
        let ghost rest = text.skip(pos as int);
        let end = find_char(&v, pos, n, '\n');
        let line_end = if end < n && end > pos && v[end - 1] == '\r' {
            end - 1
        } else {
            end
        };
        let next = if end < n {
            end + 1
        } else {
            n
        };
        proof {
            let line = v@.subrange(pos as int, line_end as int);
            assert(v@.subrange(pos as int, n as int) =~= rest);
            assert(find(rest, '\n') == end - pos);
            if end < n {
                assert(rest.take(end - pos) =~= v@.subrange(pos as int, end as int));
                assert(strip_cr(rest.take(end - pos)) =~= line);
                assert(rest.skip(end - pos + 1) =~= text.skip(next as int));
            } else {
                assert(line =~= rest);
                assert(text.skip(next as int) =~= Seq::<char>::empty());
            }
            assert(first_line(rest) == line);
            assert(after_first_line(rest) == text.skip(next as int));
            assert(rest.len() > 0);
        }
        match read_line(&v, pos, line_end, &name, delta) {
            Ok(d) => {
                delta = d;
            },
            Err(e) => {
                config.cltv_delta.1 = delta;
                return Err(e);
            },
        }
        pos = next;
    }
    proof {
        assert(text.skip(n as int).len() == 0);
    }
    config.cltv_delta.1 = delta;
    Ok(())
}

/// What the port option asks for: `Ok(None)` where the service is not
/// configured, `Ok(Some(port))` for a port number, `Parse` where the option
/// is missing or its value is no port number.
pub open spec fn port_choice(value: Option<i64>) -> Result<Option<u16>, HodlError> {
    match value {
        None => Err(HodlError::Parse),
        Some(v) => if v == GRPC_HODL_PORT_DISABLED {
            Ok(None)
        } else if 0 <= v <= u16::MAX {
            Ok(Some(v as u16))
        } else {
            Err(HodlError::Parse)
        },
    }
}

/// Reads the port option, `None` where the node gave none.
pub fn grpc_port(value: Option<i64>) -> (r: Result<Option<u16>, HodlError>)
    ensures
        r == port_choice(value),
{
    match value {
        None => Err(HodlError::Parse),
        Some(v) => {
            if v == GRPC_HODL_PORT_DISABLED {
                Ok(None)
            } else if 0 <= v && v <= 0xffff {
                Ok(Some(v as u16))
            } else {
                Err(HodlError::Parse)
            }
        },
    }
}

/// The address that the service listens on: every interface, at `port`.
pub fn bind_address(port: u16) -> (s: String)
    ensures
        s@ == "0.0.0.0:"@ + decimal(port as nat),
{
    let mut out = chars_of("0.0.0.0:");
    let ghost prefix = out@;
    push_decimal(port as u64, &mut out);
    assert(out@ =~= prefix + decimal(port as nat));
    string_from_chars(&out)
}

} // verus!
