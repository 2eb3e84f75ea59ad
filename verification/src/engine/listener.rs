//! The BitTorrent protocol handshake, answered to peers that connect with a
//! matching info_hash so that the client appears as a real peer in the
//! swarm. The listening itself is done by the application.
use vstd::prelude::*;
use vstd::string::StringSliceAdditionalSpecFns;

verus! {

/// Total handshake length: 1 (pstrlen) + 19 (pstr) + 8 (reserved) + 20
/// (info_hash) + 20 (peer_id).
pub const HANDSHAKE_LEN: usize = 68;

/// The bytes of the protocol name, `BitTorrent protocol`.
pub open spec fn protocol_name() -> Seq<u8> {
    seq![
        66u8, 105u8, 116u8, 84u8, 111u8, 114u8, 114u8, 101u8, 110u8, 116u8, 32u8, 112u8, 114u8,
        111u8, 116u8, 111u8, 99u8, 111u8, 108u8,
    ]
}

/// A handshake: the protocol name with its length, eight reserved zero
/// bytes, the info_hash, and the peer_id.
pub open spec fn handshake_spec(info_hash: Seq<u8>, peer_id: Seq<u8>) -> Seq<u8> {
    seq![19u8] + protocol_name() + Seq::new(8, |i: int| 0u8) + info_hash + peer_id
}

/// An incoming handshake is valid when it names the protocol and carries
/// the expected info_hash (reserved bytes and peer_id may be anything).
pub open spec fn valid_handshake(data: Seq<u8>, info_hash: Seq<u8>) -> bool {
    data[0] == 19 && data.subrange(1, 20) == protocol_name() && data.subrange(28, 48) == info_hash
}

/// The protocol name, as bytes.
fn protocol_string() -> (r: Vec<u8>)
    ensures
        r@ == protocol_name(),
{
    let v = vec![
        66u8, 105u8, 116u8, 84u8, 111u8, 114u8, 114u8, 101u8, 110u8, 116u8, 32u8, 112u8, 114u8,
        111u8, 116u8, 111u8, 99u8, 111u8, 108u8,
    ];
    assert(v@ =~= protocol_name());
    v
}

/// Validates an incoming BitTorrent handshake.
pub fn is_valid_handshake(data: &[u8; 68], expected_info_hash: &[u8; 20]) -> (r: bool)
    ensures
        r == valid_handshake(data@, expected_info_hash@),
{
    if data[0] != 19 {
        return false;
    }
    let pstr = protocol_string();
    let mut i: usize = 0;
    while i < 19
        invariant
            i <= 19,
            pstr@ == protocol_name(),
            data@.len() == 68,
            forall|j: int| 0 <= j < i ==> data@[1 + j] == pstr@[j],
        decreases 19 - i,
    {
        if data[1 + i] != pstr[i] {
            assert(data@.subrange(1, 20)[i as int] != protocol_name()[i as int]);
            return false;
        }
        i += 1;
    }
    assert(data@.subrange(1, 20) =~= protocol_name());
    let mut k: usize = 0;
    while k < 20
        invariant
            k <= 20,
            data@.len() == 68,
            expected_info_hash@.len() == 20,
            forall|j: int| 0 <= j < k ==> data@[28 + j] == expected_info_hash@[j],
        decreases 20 - k,
    {
        if data[28 + k] != expected_info_hash[k] {
            assert(data@.subrange(28, 48)[k as int] != expected_info_hash@[k as int]);
            return false;
        }
        k += 1;
    }
    assert(data@.subrange(28, 48) =~= expected_info_hash@);
    true
}

/// Builds a BitTorrent protocol handshake message.
pub fn build_handshake(info_hash: &[u8; 20], peer_id: &[u8; 20]) -> (r: [u8; 68])
    ensures
        r@ == handshake_spec(info_hash@, peer_id@),
{
    let pstr = protocol_string();
    let mut handshake = [0u8; 68];
    handshake[0] = 19;
    let mut i: usize = 0;
    while i < 68
        invariant
            i <= 68,
            pstr@ == protocol_name(),
            handshake@.len() == 68,
            info_hash@.len() == 20,
            peer_id@.len() == 20,
            forall|j: int|
                0 <= j < i ==> #[trigger] handshake@[j] == handshake_spec(info_hash@, peer_id@)[j],
        decreases 68 - i,
    {
        if i == 0 {
            handshake[i] = 19;
        } else if i < 20 {
            handshake[i] = pstr[i - 1];
        } else if i < 28 {
            handshake[i] = 0;
        } else if i < 48 {
            handshake[i] = info_hash[i - 28];
        } else {
            handshake[i] = peer_id[i - 48];
        }
        i += 1;
    }
    assert(handshake@ =~= handshake_spec(info_hash@, peer_id@));
    handshake
}

/// A handshake built for an info_hash is a valid handshake for it.
pub proof fn law_built_handshake_valid(info_hash: Seq<u8>, peer_id: Seq<u8>)
    requires
        info_hash.len() == 20,
        peer_id.len() == 20,
    ensures
        valid_handshake(handshake_spec(info_hash, peer_id), info_hash),
        handshake_spec(info_hash, peer_id).len() == 68,
{
    let h = handshake_spec(info_hash, peer_id);
    assert(h.subrange(1, 20) =~= protocol_name());
    assert(h.subrange(28, 48) =~= info_hash);
}

/// A handshake is the length 19, the ASCII text `BitTorrent protocol`,
/// eight zero bytes, the info_hash and the peer_id; it is answered only for
/// its own torrent: a handshake is valid for an info_hash exactly when it
/// carries that info_hash.
pub proof fn law_handshake_layout(info_hash: Seq<u8>, peer_id: Seq<u8>, other: Seq<u8>)
    requires
        info_hash.len() == 20,
        peer_id.len() == 20,
        other.len() == 20,
    ensures
        ({
            let h = handshake_spec(info_hash, peer_id);
            &&& h[0] == 19
            &&& h.subrange(1, 20) == "BitTorrent protocol".spec_bytes()
            &&& forall|j: int| 20 <= j < 28 ==> h[j] == 0
            &&& h.subrange(28, 48) == info_hash
            &&& h.subrange(48, 68) == peer_id
            &&& valid_handshake(h, other) <==> other == info_hash
        }),
{
    reveal_strlit("BitTorrent protocol");
    vstd::utf8::is_ascii_chars_encode_utf8("BitTorrent protocol"@);
    let h = handshake_spec(info_hash, peer_id);
    assert("BitTorrent protocol".spec_bytes() =~= protocol_name());
    assert(h.subrange(1, 20) =~= protocol_name());
    assert(h.subrange(28, 48) =~= info_hash);
    assert(h.subrange(48, 68) =~= peer_id);
}

} // verus!
