//! The DNS A-record response wire format: a 12-byte header, one question,
//! then resource records whose names may use backward compression pointers.
//! The spec functions here state what a buffer parses to; the executable
//! functions are proved to return exactly that.

use vstd::prelude::*;
use vstd::string::StringExecFns;
use crate::addr::Ipv4Addr;
use crate::error::AresError;

verus! {

/// The 16-bit big-endian integer at offset `i` of `b`.
pub open spec fn read_u16(b: Seq<u8>, i: int) -> int {
    b[i] * 256 + b[i + 1]
}

/// A single wire byte read as a character of a hostname label.
pub open spec fn byte_char(x: u8) -> char {
    x as char
}

/// The `len` label bytes starting at `start`, as hostname characters.
pub open spec fn label_chars(b: Seq<u8>, start: int, len: int) -> Seq<char> {
    Seq::new(len as nat, |j: int| byte_char(b[start + j]))
}

/// What the domain name encoded at offset `pos` of `b` decodes to, together
/// with the offset just past the name as it stands at `pos` (a compression
/// pointer ends the in-place encoding). `fuel` bounds how many compression
/// pointers may be followed; a chain longer than `b.len()` must revisit an
/// offset and so can never terminate, hence callers pass `b.len()`.
/// `None` means the encoding is invalid (out of bounds, a reserved label
/// tag, or an unterminated pointer chain).
pub open spec fn spec_decode_name(b: Seq<u8>, pos: int, fuel: nat) -> Option<(Seq<char>, int)>
    decreases fuel, b.len() - pos,
{
    if pos < 0 || pos >= b.len() {
        None
    } else {
        let c = b[pos];
        if c == 0 {
            Some((Seq::empty(), pos + 1))
        } else if c >= 192 {
            if pos + 1 >= b.len() {
                None
            } else if fuel == 0 {
                None
            } else {
                let target = (c - 192) * 256 + b[pos + 1];
                if target >= b.len() {
                    None
                } else {
                    match spec_decode_name(b, target, (fuel - 1) as nat) {
                        None => None,
                        Some(p) => Some((p.0, pos + 2)),
                    }
                }
            }
        } else if c > 63 {
            None
        } else if pos + 1 + c > b.len() {
            None
        } else {
            match spec_decode_name(b, pos + 1 + c, fuel) {
                None => None,
                Some(p) => {
                    let lab = label_chars(b, pos + 1, c as int);
                    if p.0.len() == 0 {
                        Some((lab, p.1))
                    } else {
                        Some((lab.push('.') + p.0, p.1))
                    }
                },
            }
        }
    }
}

/// A successfully decoded name ends strictly past where it began and within
/// the buffer.
pub proof fn lemma_decode_name_end(b: Seq<u8>, pos: int, fuel: nat)
    ensures
        spec_decode_name(b, pos, fuel) matches Some(p) ==> pos < p.1 && p.1 <= b.len(),
    decreases fuel, b.len() - pos,
{
    if 0 <= pos < b.len() {
        let c = b[pos];
        if 0 < c <= 63 && pos + 1 + c <= b.len() {
            lemma_decode_name_end(b, pos + 1 + c, fuel);
        }
    }
}

/// What the run of `count` resource records starting at offset `pos` of `b`
/// contributes: the IPv4 addresses of its A records of the Internet class,
/// in wire order. An error reports the first malformed record.
pub open spec fn spec_answers(b: Seq<u8>, pos: int, count: nat) -> Result<Seq<Ipv4Addr>, AresError>
    decreases count,
{
    if count == 0 {
        Ok(Seq::empty())
    } else {
        match spec_decode_name(b, pos, b.len()) {
            None => Err(AresError::EBADNAME),
            Some(p) => {
                let end = p.1;
                if b.len() - end < 10 {
                    Err(AresError::EBADRESP)
                } else {
                    let rtype = read_u16(b, end);
                    let rclass = read_u16(b, end + 2);
                    let rdlen = read_u16(b, end + 8);
                    if b.len() - (end + 10) < rdlen {
                        Err(AresError::EBADRESP)
                    } else {
                        match spec_answers(b, end + 10 + rdlen, (count - 1) as nat) {
                            Err(e) => Err(e),
                            Ok(rest) => {
                                if rtype == 1 && rclass == 1 && rdlen == 4 {
                                    Ok(
                                        seq![
                                            Ipv4Addr {
                                                a: b[end + 10],
                                                b: b[end + 11],
                                                c: b[end + 12],
                                                d: b[end + 13],
                                            },
                                        ] + rest,
                                    )
                                } else {
                                    Ok(rest)
                                }
                            },
                        }
                    }
                }
            },
        }
    }
}

/// What an A-record response buffer parses to: the question's hostname and
/// the addresses of the answer section's A records, or the error that the
/// first structural fault yields. The buffer must hold a full header, have
/// exactly one question, and every record must lie within bounds.
pub open spec fn spec_parse(b: Seq<u8>) -> Result<(Seq<char>, Seq<Ipv4Addr>), AresError> {
    if b.len() < 12 {
        Err(AresError::EBADRESP)
    } else if read_u16(b, 4) != 1 {
        Err(AresError::EBADRESP)
    } else {
        match spec_decode_name(b, 12, b.len()) {
            None => Err(AresError::EBADNAME),
            Some(q) => {
                if b.len() - q.1 < 4 {
                    Err(AresError::EBADRESP)
                } else {
                    match spec_answers(b, q.1 + 4, read_u16(b, 6) as nat) {
                        Err(e) => Err(e),
                        Ok(addrs) => Ok((q.0, addrs)),
                    }
                }
            },
        }
    }
}

/// An answer section with a zero record count is not an error: a response
/// whose header is complete, whose question count is one, and whose
/// question is well formed parses successfully to an empty address
/// sequence when its answer count is zero.
pub proof fn lemma_zero_answers_ok(b: Seq<u8>)
    requires
        b.len() >= 12,
        read_u16(b, 4) == 1,
        read_u16(b, 6) == 0,
        spec_decode_name(b, 12, b.len()) is Some,
        b.len() - spec_decode_name(b, 12, b.len())->Some_0.1 >= 4,
    ensures
        spec_parse(b) == Ok::<(Seq<char>, Seq<Ipv4Addr>), AresError>(
            (spec_decode_name(b, 12, b.len())->Some_0.0, Seq::<Ipv4Addr>::empty()),
        ),
{
}

/// Relies on `String::push`: appends the given character to the end of the
/// string.
#[verifier::external_body]
fn push_char(s: &mut String, c: char)
    ensures
        final(s)@ == old(s)@.push(c),
{
    s.push(c);
}

/// Reads the 16-bit big-endian integer at offset `i`.
fn get_u16(buf: &[u8], i: usize) -> (r: u16)
    requires
        i + 1 < buf@.len(),
    ensures
        r == read_u16(buf@, i as int),
{
    (buf[i] as u16) * 256 + (buf[i + 1] as u16)
}

/// Decodes the domain name at offset `pos`, returning its text and the
/// offset just past its in-place encoding.
fn decode_name(buf: &[u8], pos: usize, fuel: usize) -> (r: Result<(String, usize), AresError>)
    ensures
        match spec_decode_name(buf@, pos as int, fuel as nat) {
            Some(p) => r matches Ok(n) && n.0@ == p.0 && n.1 == p.1,
            None => r == Err::<(String, usize), AresError>(AresError::EBADNAME),
        },
    decreases fuel, buf@.len() - pos,
{
    if pos >= buf.len() {
        return Err(AresError::EBADNAME);
    }
    let c = buf[pos];
    if c == 0 {
        Ok((String::new(), pos + 1))
    } else if c >= 192 {
        if pos + 1 >= buf.len() {
            Err(AresError::EBADNAME)
        } else if fuel == 0 {
            Err(AresError::EBADNAME)
        } else {
            let target: usize = ((c - 192) as usize) * 256 + (buf[pos + 1] as usize);
            if target >= buf.len() {
                Err(AresError::EBADNAME)
            } else {
                match decode_name(buf, target, fuel - 1) {
                    Err(e) => Err(e),
                    Ok(n) => Ok((n.0, pos + 2)),
                }
            }
        }
    } else if c > 63 {
        Err(AresError::EBADNAME)
    } else if (c as usize) > buf.len() - pos - 1 {
        Err(AresError::EBADNAME)
    } else {
        match decode_name(buf, pos + 1 + (c as usize), fuel) {
            Err(e) => Err(e),
            Ok(n) => {
                let rest = n.0;
                let end = n.1;
                let mut name = String::new();
                let mut i: usize = 0;
                while i < c as usize
                    invariant
                        0 < c <= 63,
                        pos + 1 + c <= buf@.len(),
                        buf@.len() <= usize::MAX,
                        i <= c,
                        name@ == label_chars(buf@, pos + 1 as int, i as int),
                    decreases c as int - i,
                {
                    push_char(&mut name, buf[pos + 1 + i] as char);
                    proof {
                        assert(label_chars(buf@, pos + 1 as int, i + 1 as int) =~= label_chars(
                            buf@,
                            pos + 1 as int,
                            i as int,
                        ).push(byte_char(buf@[pos + 1 + i])));
                    }
                    i = i + 1;
                }
                if !rest.as_str().is_empty() {
                    push_char(&mut name, '.');
                    name.append(rest.as_str());
                }
                Ok((name, end))
            },
        }
    }
}

/// Parses the resource records at `pos` and collects the addresses of the
/// A records among them, exactly as [`spec_answers`] states.
fn parse_answers(buf: &[u8], pos: usize, count: u16) -> (r: Result<Vec<Ipv4Addr>, AresError>)
    ensures
        match spec_answers(buf@, pos as int, count as nat) {
            Ok(s) => r matches Ok(v) && v@ == s,
            Err(e) => r == Err::<Vec<Ipv4Addr>, AresError>(e),
        },
    decreases count,
{
    if count == 0 {
        return Ok(Vec::new());
    }
    let name = decode_name(buf, pos, buf.len());
    proof {
        lemma_decode_name_end(buf@, pos as int, buf@.len() as nat);
    }
    match name {
        Err(e) => Err(e),
        Ok(n) => {
            let end = n.1;
            if buf.len() - end < 10 {
                return Err(AresError::EBADRESP);
            }
            let rtype = get_u16(buf, end);
            let rclass = get_u16(buf, end + 2);
            let rdlen = get_u16(buf, end + 8);
            if buf.len() - (end + 10) < rdlen as usize {
                return Err(AresError::EBADRESP);
            }
            match parse_answers(buf, end + 10 + rdlen as usize, count - 1) {
                Err(e) => Err(e),
                Ok(mut rest) => {
                    if rtype == 1 && rclass == 1 && rdlen == 4 {
                        let addr = Ipv4Addr::new(
                            buf[end + 10],
                            buf[end + 11],
                            buf[end + 12],
                            buf[end + 13],
                        );
                        let mut v: Vec<Ipv4Addr> = Vec::new();
                        v.push(addr);
                        v.append(&mut rest);
                        proof {
                            assert(v@ =~= seq![addr] + spec_answers(
                                buf@,
                                end + 10 + rdlen as int,
                                (count - 1) as nat,
                            )->Ok_0);
                        }
                        Ok(v)
                    } else {
                        Ok(rest)
                    }
                },
            }
        },
    }
}

/// Parses a full A-record response buffer into the question's hostname and
/// the answer section's IPv4 addresses, exactly as [`spec_parse`] states.
pub fn parse_reply(data: &[u8]) -> (r: Result<(String, Vec<Ipv4Addr>), AresError>)
    ensures
        match spec_parse(data@) {
            Ok(p) => r matches Ok(v) && v.0@ == p.0 && v.1@ == p.1,
            Err(e) => r == Err::<(String, Vec<Ipv4Addr>), AresError>(e),
        },
{
    if data.len() < 12 {
        return Err(AresError::EBADRESP);
    }
    let qd = get_u16(data, 4);
    if qd != 1 {
        return Err(AresError::EBADRESP);
    }
    let an = get_u16(data, 6);
    let q = decode_name(data, 12, data.len());
    proof {
        lemma_decode_name_end(data@, 12, data@.len() as nat);
    }
    match q {
        Err(e) => Err(e),
        Ok(qn) => {
            let qend = qn.1;
            if data.len() - qend < 4 {
                return Err(AresError::EBADRESP);
            }
            match parse_answers(data, qend + 4, an) {
                Err(e) => Err(e),
                Ok(addrs) => Ok((qn.0, addrs)),
            }
        },
    }
}

} // verus!
