//! What holds of the handshake format, whatever the bytes.

use crate::header::cmd_of_byte;
use crate::header::request::options_at;
use crate::header::request::request_at;
use crate::header::request::spec_encode;
use crate::header::request::spec_parse;
use crate::header::request::AddressView;
use crate::header::request::RequestView;
use crate::header::scan;
use crate::header::HandshakeError;
use crate::header::Progress;
use vstd::prelude::*;

verus! {

/// A handshake whose version is not 0 is refused for its version, whatever
/// the version is and whatever follows it.
pub proof fn lemma_version_refused(b: Seq<u8>)
    requires
        b.len() >= 1,
        b[0] != 0,
    ensures
        spec_parse(b) == Err::<(RequestView, usize), _>(HandshakeError::UnsupportedVersion(b[0])),
{
}

/// A handshake of version 0 whose command byte is neither 1 nor 2 is refused
/// for its command, whatever follows the command.
pub proof fn lemma_command_refused(b: Seq<u8>)
    requires
        b.len() >= 19 + b[17] as int,
        b[0] == 0,
        b[18 + b[17] as int] != 1,
        b[18 + b[17] as int] != 2,
    ensures
        spec_parse(b) == Err::<(RequestView, usize), _>(
            HandshakeError::UnknownCommand(b[18 + b[17] as int]),
        ),
{
}

/// A handshake of version 0 with a known command whose address type is
/// neither 1 nor 2 is refused for its address type.
pub proof fn lemma_address_type_refused(b: Seq<u8>)
    requires
        b.len() >= 22 + b[17] as int,
        b[0] == 0,
        cmd_of_byte(b[18 + b[17] as int]) is Some,
        b[21 + b[17] as int] != 1,
        b[21 + b[17] as int] != 2,
    ensures
        spec_parse(b) == Err::<(RequestView, usize), _>(
            HandshakeError::UnknownAddressType(b[21 + b[17] as int]),
        ),
{
}

/// What parsing accepts fits the wire format, and the handshake it found
/// lies within the bytes.
pub proof fn lemma_parsed_is_wf(b: Seq<u8>)
    ensures
        spec_parse(b) matches Ok((r, n)) ==> r.wf() && 23 <= n <= b.len() && n <= 533,
{
}

/// Parsing and then encoding the same fields, with the options that were
/// skipped, gives back the bytes of the handshake, one for one.
pub proof fn lemma_parse_then_encode(b: Seq<u8>)
    ensures
        spec_parse(b) matches Ok((r, n)) ==> spec_encode(r, options_at(b)) == b.take(n as int),
{
}

/// Encoding and then parsing gives back the fields and the length of the
/// encoding, whatever bytes follow it.
pub proof fn lemma_encode_then_parse(r: RequestView, options: Seq<u8>, rest: Seq<u8>)
    requires
        r.wf(),
        options.len() <= 255,
    ensures
        spec_parse(spec_encode(r, options) + rest) == Ok::<_, HandshakeError>(
            (r, spec_encode(r, options).len() as usize),
        ),
        options_at(spec_encode(r, options) + rest) == options,
{
    let e = spec_encode(r, options);
    let b = e + rest;
    let l = options.len() as int;
    assert(b.subrange(1, 17) =~= r.uuid);
    match r.address {
        AddressView::Ipv4(octets) => {
            assert(b.subrange(22 + l, 26 + l) =~= octets);
        },
        AddressView::Domain(name) => {
            assert(b.subrange(23 + l, 23 + l + name.len()) =~= name);
        },
    }
}

/// Parsing looks at the handshake and at nothing behind it: bytes added
/// behind a whole handshake change neither the fields nor the length.
pub proof fn lemma_parse_ignores_tail(b: Seq<u8>, more: Seq<u8>)
    ensures
        spec_parse(b) is Ok ==> spec_parse(b + more) == spec_parse(b),
        scan(b) is Invalid ==> scan(b + more) == scan(b),
{
    let c = b + more;
    if spec_parse(b) is Ok {
        let l = b[17] as int;
        assert(c.subrange(1, 17) =~= b.subrange(1, 17));
        if b[21 + l] == 1 {
            assert(c.subrange(22 + l, 26 + l) =~= b.subrange(22 + l, 26 + l));
        } else {
            let d = b[22 + l] as int;
            assert(c.subrange(23 + l, 23 + l + d) =~= b.subrange(23 + l, 23 + l + d));
        }
    }
}

/// A field that lacks `k` bytes still lacks the rest after fewer than `k`
/// more bytes: whoever reads the missing bytes of one field at a time reads
/// no byte that follows the handshake.
pub proof fn lemma_missing_counts_down(b: Seq<u8>, more: Seq<u8>)
    ensures
        scan(b) matches Progress::Missing(field, k) ==> k >= 1 && (more.len() < k ==> scan(
            b + more,
        ) == Progress::Missing(field, (k - more.len()) as usize)),
{
}

} // verus!
