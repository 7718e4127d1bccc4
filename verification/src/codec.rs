//! Queries and replies on the wire.
//!
//! Messages are built and parsed by the `dns-parser` crate. What this module
//! adds is the order of events around it: a host name is checked before it is
//! handed over, and a reply is reduced to the one field the engine reads, the
//! transaction identifier.

use vstd::prelude::*;
use vstd::string::StringSliceAdditionalSpecFns;
use vstd::utf8::encode_utf8;
use dns_parser::{Builder, Packet, QueryClass, QueryType};
use crate::endpoint::RecordKind;
use crate::error::ProbeError;

verus! {

/// The byte `.`, which parts a host name into labels.
pub const DOT: u8 = 0x2e;

/// A label has fewer bytes than this.
pub const LABEL_LIMIT: usize = 63;

/// A query is no longer than this.
pub const QUERY_LIMIT: usize = 512;

/// The bytes of a query besides those of the host name: twelve of header, one
/// length byte before the first label, the name's closing zero, and two each
/// for record type and class.
pub const QUERY_OVERHEAD: usize = 18;

/// A message shorter than this has no header.
pub const HEADER_LEN: usize = 12;

/// No byte of `host` from `from` up to `to` is a dot.
pub open spec fn dot_free(host: Seq<u8>, from: int, to: int) -> bool {
    forall|k: int| from <= k < to ==> host[k] != DOT
}

/// Every label of `host`, the empty ones between two dots included, is
/// shorter than [`LABEL_LIMIT`].
pub open spec fn labels_fit(host: Seq<u8>) -> bool {
    forall|from: int, to: int|
        0 <= from <= to <= host.len() && #[trigger] dot_free(host, from, to) ==> to - from
            < LABEL_LIMIT
}

/// An identifier as it stands at the head of a message: high byte first.
pub open spec fn id_bytes(id: u16) -> Seq<u8> {
    seq![(id / 256) as u8, (id % 256) as u8]
}

/// The identifier at the head of a message of two bytes or more.
pub open spec fn wire_id(message: Seq<u8>) -> u16 {
    (message[0] as int * 256 + message[1] as int) as u16
}

/// What `dns_parser::Builder` writes behind the identifier for a query with
/// one question: the rest of the header, the name, the record type and the
/// class `IN`.
pub uninterp spec fn dns_query_rest(recursion: bool, host: Seq<u8>, aaaa: bool) -> Seq<u8>;

/// Whether `dns_parser::Packet::parse` accepts a message.
pub uninterp spec fn dns_accepts(message: Seq<u8>) -> bool;

/// A query can be built for `host`: its labels fit and the whole stays
/// within [`QUERY_LIMIT`].
pub open spec fn host_fits(host: Seq<u8>) -> bool {
    labels_fit(host) && host.len() + QUERY_OVERHEAD <= QUERY_LIMIT
}

/// The query for `host`, where there is one.
pub open spec fn query_image(id: u16, recursion: bool, host: Seq<u8>, kind: RecordKind) -> Option<
    Seq<u8>,
> {
    if host_fits(host) {
        Some(id_bytes(id) + dns_query_rest(recursion, host, kind is Aaaa))
    } else {
        None
    }
}

/// The identifier of a message that the parser accepts.
pub open spec fn reply_id(message: Seq<u8>) -> Option<u16> {
    if message.len() >= HEADER_LEN && dns_accepts(message) {
        Some(wire_id(message))
    } else {
        None
    }
}

/// Calls `dns_parser::Builder`: `new_query`, `add_question` with the class
/// `IN` and no preference for unicast, then `build`.
///
/// Believed of it, from its source: `add_question` panics on a label of 63
/// bytes or more and on nothing else, so such hosts are kept out; the first
/// two bytes are the identifier, high byte first, and no other byte depends
/// on it; each label costs its bytes and one more, so the message is 18 bytes
/// longer than the host; `build` hands it out unless it is longer than 512
/// bytes.
#[verifier::external_body]
fn build_query(id: u16, recursion: bool, host: &str, kind: RecordKind) -> (packet: Option<Vec<u8>>)
    requires
        labels_fit(host.spec_bytes()),
    ensures
        packet is Some <==> host.spec_bytes().len() + QUERY_OVERHEAD <= QUERY_LIMIT,
        packet matches Some(bytes) ==> bytes@ == id_bytes(id) + dns_query_rest(
            recursion,
            host.spec_bytes(),
            kind is Aaaa,
        ) && bytes@.len() == host.spec_bytes().len() + QUERY_OVERHEAD,
{
    let record = match kind {
        RecordKind::A => QueryType::A,
        RecordKind::Aaaa => QueryType::AAAA,
    };
    let mut builder = Builder::new_query(id, recursion);
    builder.add_question(host, false, record, QueryClass::IN);
    builder.build().ok()
}

/// Calls `dns_parser::Packet::parse` and picks the header's identifier.
///
/// Believed of it, from its source: it panics on no input; it rejects
/// whatever is shorter than a header; the identifier it reports is the first
/// two bytes, high byte first.
#[verifier::external_body]
fn parse_id(message: &[u8]) -> (id: Option<u16>)
    ensures
        id == (if message@.len() >= HEADER_LEN && dns_accepts(message@) {
            Some(wire_id(message@))
        } else {
            None
        }),
{
    match Packet::parse(message) {
        Ok(packet) => Some(packet.header.id),
        Err(_) => None,
    }
}

/// Whether every label of `host` is short enough to be written.
pub fn check_labels(host: &[u8]) -> (fit: bool)
    ensures
        fit == labels_fit(host@),
{
    let mut run: usize = 0;
    let mut i: usize = 0;
    while i < host.len()
        invariant
            run <= i <= host.len(),
            run < LABEL_LIMIT,
            dot_free(host@, i - run, i as int),
            run < i ==> host@[i - run - 1] == DOT,
            forall|from: int, to: int|
                0 <= from <= to <= i && #[trigger] dot_free(host@, from, to) ==> to - from
                    < LABEL_LIMIT,
        decreases host.len() - i,
    {
        if host[i] == DOT {
            run = 0;
        } else {
            run = run + 1;
            if run >= LABEL_LIMIT {
                assert(dot_free(host@, i + 1 - run, i + 1));
                return false;
            }
        }
        assert forall|from: int, to: int|
            0 <= from <= to <= i + 1 && #[trigger] dot_free(host@, from, to) implies to - from
            < LABEL_LIMIT by {
            if to == i + 1 && from < i + 1 - run {
                assert(host@[i - run] == DOT);
            }
        }
        i = i + 1;
    }
    true
}

/// Whether a query can be built for `host`.
pub fn check_host(host: &str) -> (fit: bool)
    ensures
        fit == host_fits(host.spec_bytes()),
{
    let bytes = host.as_bytes();
    bytes.len() <= QUERY_LIMIT - QUERY_OVERHEAD && check_labels(bytes)
}

/// Builds the query that a probe sends.
///
/// `iterate` is the flag that the caller chose between an iterative and a
/// recursive query; it reaches the message builder as its recursion flag.
/// There is a query exactly when every label of the host is shorter than
/// [`LABEL_LIMIT`] and the host is at most 494 bytes long; otherwise the
/// answer is `MalformedMessage`.
pub fn encode_query(id: u16, iterate: bool, host: &str, kind: RecordKind) -> (query: Result<
    Vec<u8>,
    ProbeError,
>)
    ensures
        match query_image(id, iterate, host.spec_bytes(), kind) {
            Some(image) => query matches Ok(bytes) && bytes@ == image && bytes@.len()
                == host.spec_bytes().len() + QUERY_OVERHEAD,
            None => query == Err::<Vec<u8>, ProbeError>(ProbeError::MalformedMessage),
        },
{
    if !check_labels(host.as_bytes()) {
        return Err(ProbeError::MalformedMessage);
    }
    match build_query(id, iterate, host, kind) {
        Some(bytes) => Ok(bytes),
        None => Err(ProbeError::MalformedMessage),
    }
}

/// Reads the transaction identifier of a message, or fails with
/// `MalformedMessage` where the parser rejects the message.
pub fn decode_id(message: &[u8]) -> (id: Result<u16, ProbeError>)
    ensures
        id == match reply_id(message@) {
            Some(found) => Ok::<u16, ProbeError>(found),
            None => Err(ProbeError::MalformedMessage),
        },
{
    match parse_id(message) {
        Some(found) => Ok(found),
        None => Err(ProbeError::MalformedMessage),
    }
}

/// A host name for which queries can be built.
pub struct HostName {
    text: String,
}

impl View for HostName {
    type V = Seq<char>;

    closed spec fn view(&self) -> Seq<char> {
        self.text@
    }
}

impl HostName {
    #[verifier::type_invariant]
    spec fn fits(&self) -> bool {
        host_fits(encode_utf8(self.text@))
    }

    /// Accepts `text` as a host name, or refuses it with `MalformedMessage`
    /// where no query can be built for it.
    pub fn new(text: String) -> (host: Result<HostName, ProbeError>)
        ensures
            match host {
                Ok(name) => host_fits(encode_utf8(text@)) && name@ == text@,
                Err(error) => !host_fits(encode_utf8(text@)) && error
                    == ProbeError::MalformedMessage,
            },
    {
        if !check_host(text.as_str()) {
            return Err(ProbeError::MalformedMessage);
        }
        Ok(HostName { text })
    }

    /// The name as text.
    pub fn as_str(&self) -> (text: &str)
        ensures
            text@ == self@,
            host_fits(text.spec_bytes()),
    {
        proof {
            use_type_invariant(self);
        }
        self.text.as_str()
    }

    /// The size in bytes of every query for this host.
    pub fn query_len(&self) -> (len: usize)
        ensures
            len == encode_utf8(self@).len() + QUERY_OVERHEAD,
            len <= QUERY_LIMIT,
    {
        proof {
            use_type_invariant(self);
        }
        self.text.as_str().as_bytes().len() + QUERY_OVERHEAD
    }

    /// The query for this host under `id`. There always is one: the name
    /// was checked when it was accepted, so the encoder never refuses it.
    pub fn query(&self, id: u16, iterate: bool, kind: RecordKind) -> (query: Vec<u8>)
        ensures
            query_image(id, iterate, encode_utf8(self@), kind) == Some(query@),
            query@.len() == encode_utf8(self@).len() + QUERY_OVERHEAD,
    {
        proof {
            use_type_invariant(self);
        }
        match encode_query(id, iterate, self.text.as_str(), kind) {
            Ok(bytes) => bytes,
            Err(_) => Vec::new(),
        }
    }
}

/// A query carries its identifier in front, so a query that the parser
/// accepts is read as carrying the identifier it was built with.
pub proof fn law_identifier_round_trip(id: u16, recursion: bool, host: Seq<u8>, kind: RecordKind)
    requires
        query_image(id, recursion, host, kind) is Some,
    ensures
        wire_id(query_image(id, recursion, host, kind)->0) == id,
        reply_id(query_image(id, recursion, host, kind)->0) is Some ==> reply_id(
            query_image(id, recursion, host, kind)->0,
        ) == Some(id),
{
    let image = query_image(id, recursion, host, kind)->0;
    assert(image[0] == id_bytes(id)[0]);
    assert(image[1] == id_bytes(id)[1]);
}

} // verus!
