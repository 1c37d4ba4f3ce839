//! Byte-level codecs at the edge of the core: base64 payloads and the
//! originating IP address taken from a peer address string.

use vstd::prelude::*;

verus! {

/// What `base64::encode` returns for the given bytes: the RFC 4648 standard
/// encoding with padding, a function of the bytes alone.
pub uninterp spec fn b64_encoding(bytes: Seq<u8>) -> Seq<char>;

/// What `base64::decode` returns for the given characters: the decoded bytes,
/// or `None` where the characters are not acceptable base64. A function of
/// the characters alone.
pub uninterp spec fn b64_decoding(chars: Seq<char>) -> Option<Seq<u8>>;

/// Relies on base64::encode: the standard encoding of the bytes, determined
/// by the bytes alone.
#[verifier::external_body]
pub fn b64_encode(bytes: &Vec<u8>) -> (r: String)
    ensures
        r@ == b64_encoding(bytes@),
{
    base64::encode(bytes.as_slice())
}

/// Relies on base64::decode: deterministic in its input, and accepts every
/// string that base64::encode produces, giving back exactly the bytes that
/// were encoded.
#[verifier::external_body]
pub fn b64_decode(s: &str) -> (r: Option<Vec<u8>>)
    ensures
        r is Some <==> b64_decoding(s@) is Some,
        r is Some ==> r.unwrap()@ == b64_decoding(s@).unwrap(),
        forall|q: Seq<u8>| s@ == b64_encoding(q) ==> r is Some && r.unwrap()@ == q,
{
    base64::decode(s).ok()
}

/// Law: decoding the encoding of any byte string gives those bytes back, so a
/// payload survives the trip through its base64 form unchanged.
pub fn b64_round_trip(bytes: &Vec<u8>) -> (r: Option<Vec<u8>>)
    ensures
        r is Some,
        r.unwrap()@ == bytes@,
{
    let encoded = b64_encode(bytes);
    b64_decode(encoded.as_str())
}

/// What `ipnetwork::IpNetwork::from_str` makes of the given bytes read as
/// UTF-8: the textual form of the address of the parsed network, or `None`
/// where they do not parse. A function of the bytes alone.
pub uninterp spec fn ip_parsed(bytes: Seq<u8>) -> Option<Seq<char>>;

/// Relies on ipnetwork::IpNetwork::from_str: whether the bytes parse as an IP
/// network and the textual form of its address depend on the bytes alone.
#[verifier::external_body]
pub fn parse_ip(bytes: &Vec<u8>) -> (r: Option<String>)
    ensures
        r is Some <==> ip_parsed(bytes@) is Some,
        r is Some ==> r.unwrap()@ == ip_parsed(bytes@).unwrap(),
{
    core::str::from_utf8(bytes.as_slice())
        .ok()
        .and_then(|s| <ipnetwork::IpNetwork as core::str::FromStr>::from_str(s).ok())
        .map(|n| n.ip().to_string())
}

/// Copy a byte string, keeping its bytes.
pub fn clone_bytes(bytes: &Vec<u8>) -> (r: Vec<u8>)
    ensures
        r@ == bytes@,
{
    let mut out: Vec<u8> = Vec::new();
    let mut i: usize = 0;
    while i < bytes.len()
        invariant
            0 <= i <= bytes@.len(),
            out@.len() == i,
            forall|j: int| 0 <= j < i ==> out@[j] == bytes@[j],
        decreases bytes@.len() - i,
    {
        out.push(bytes[i]);
        i = i + 1;
    }
    proof {
        assert(out@ =~= bytes@);
    }
    out
}

/// Where the first colon of the byte string cuts it: everything before `i` is
/// colon-free and `i` is either a colon or the end.
pub open spec fn is_colon_cut(bytes: Seq<u8>, i: int) -> bool {
    &&& 0 <= i <= bytes.len()
    &&& forall|j: int| 0 <= j < i ==> bytes[j] != 58
    &&& (i == bytes.len() || bytes[i] == 58)
}

/// The bytes before the first colon: the whole string if it has none. A peer
/// address keeps its host part and loses any port suffix.
pub open spec fn before_colon(bytes: Seq<u8>) -> Seq<u8> {
    bytes.take(choose|i: int| is_colon_cut(bytes, i))
}

/// The colon cut of a byte string is unique.
pub proof fn lemma_colon_cut_unique(bytes: Seq<u8>, i1: int, i2: int)
    requires
        is_colon_cut(bytes, i1),
        is_colon_cut(bytes, i2),
    ensures
        i1 == i2,
{
    if i1 < i2 {
        assert(bytes[i1] != 58);
        assert(bytes[i1] == 58);
    }
    if i2 < i1 {
        assert(bytes[i2] != 58);
        assert(bytes[i2] == 58);
    }
}

/// Copy the bytes that stand before the first colon, as the original peer
/// address handling does when it strips a port suffix.
pub fn bytes_before_colon(bytes: &[u8]) -> (r: Vec<u8>)
    ensures
        r@ == before_colon(bytes@),
{
    let mut cut: usize = 0;
    while cut < bytes.len() && bytes[cut] != 58
        invariant
            0 <= cut <= bytes@.len(),
            forall|j: int| 0 <= j < cut ==> bytes@[j] != 58,
        decreases bytes@.len() - cut,
    {
        cut = cut + 1;
    }
    proof {
        assert(is_colon_cut(bytes@, cut as int));
    }
    let mut out: Vec<u8> = Vec::new();
    let mut k: usize = 0;
    while k < cut
        invariant
            0 <= k <= cut <= bytes@.len(),
            out@.len() == k,
            forall|j: int| 0 <= j < k ==> out@[j] == bytes@[j],
        decreases cut - k,
    {
        out.push(bytes[k]);
        k = k + 1;
    }
    proof {
        let w = choose|i: int| is_colon_cut(bytes@, i);
        lemma_colon_cut_unique(bytes@, cut as int, w);
        assert(out@ =~= bytes@.take(w));
    }
    out
}

} // verus!
