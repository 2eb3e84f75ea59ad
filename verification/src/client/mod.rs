//! Client emulation: profiles, peer ID generation, and key generation.
//!
//! Each `ClientProfile` defines how a specific BitTorrent client version identifies
//! itself to trackers, including peer ID format, HTTP headers, query parameters,
//! and protocol version.
pub mod generator;
pub mod profiles;
pub mod table_laws;

use vstd::prelude::*;

verus! {

/// The family of BitTorrent client being emulated.
#[derive(Debug, Clone, Copy, PartialEq, Eq, Hash)]
pub enum ClientFamily {
    UTorrent,
    BitComet,
    Vuze,
    Azureus,
    BitTorrent,
    Transmission,
    ABC,
    BitLord,
    BTuga,
    BitTornado,
    Burst,
    BitTyrant,
    BitSpirit,
    KTorrent,
    Deluge,
    GnomeBT,
}

/// How the random portion of the peer ID is generated.
#[derive(Debug, Clone, Copy, PartialEq, Eq)]
pub enum RandomType {
    /// Characters from `[a-zA-Z0-9]`.
    Alphanumeric,
    /// Characters from `[0-9]`.
    Numeric,
    /// Raw bytes `0x00..=0xFF`.
    Random,
    /// Characters from `[0-9A-F]`.
    Hex,
}

/// Format for the session key sent to the tracker.
#[derive(Debug, Clone, Copy, PartialEq, Eq)]
pub enum KeyFormat {
    /// Decimal digits of the given length.
    Numeric(usize),
    /// Alphanumeric characters of the given length.
    Alphanumeric(usize),
    /// Hex characters of the given length.
    Hex(usize),
}

/// A complete client emulation profile.
///
/// Defines everything needed to impersonate a specific BitTorrent client version
/// when communicating with a tracker.
#[derive(Debug, Clone)]
pub struct ClientProfile {
    /// Human-readable name (e.g. "uTorrent 3.3.2").
    pub name: String,
    /// The client family.
    pub family: ClientFamily,
    /// Version string.
    pub version: String,
    /// Fixed prefix of the 20-byte peer ID.
    pub peer_id_prefix: Vec<u8>,
    /// How random bytes in the peer ID suffix are generated.
    pub peer_id_random_type: RandomType,
    /// Whether to URL-encode the random portion of the peer ID.
    pub peer_id_url_encode: bool,
    /// Whether URL-encoded hex digits are uppercase.
    pub peer_id_url_encode_uppercase: bool,
    /// Format of the session key.
    pub key_format: KeyFormat,
    /// Whether the key uses uppercase hex/alpha.
    pub key_uppercase: bool,
    /// HTTP protocol version string ("HTTP/1.0" or "HTTP/1.1").
    pub http_protocol: String,
    /// Query template with `{infohash}`, `{peerid}`, etc. placeholders.
    pub query_template: String,
    /// HTTP headers template.
    pub headers_template: String,
    /// Whether info_hash is encoded with uppercase hex digits.
    pub hash_uppercase: bool,
    /// Default number of peers to request.
    pub default_numwant: u16,
    /// Whether to request compact peer format.
    pub compact: bool,
    /// Whether to request peers without peer IDs.
    pub no_peer_id: bool,
}

/// The mathematical model of a [`ClientProfile`].
pub struct ProfileModel {
    pub name: Seq<char>,
    pub family: ClientFamily,
    pub version: Seq<char>,
    pub peer_id_prefix: Seq<u8>,
    pub peer_id_random_type: RandomType,
    pub peer_id_url_encode: bool,
    pub peer_id_url_encode_uppercase: bool,
    pub key_format: KeyFormat,
    pub key_uppercase: bool,
    pub http_protocol: Seq<char>,
    pub query_template: Seq<char>,
    pub headers_template: Seq<char>,
    pub hash_uppercase: bool,
    pub default_numwant: u16,
    pub compact: bool,
    pub no_peer_id: bool,
}

impl View for ClientProfile {
    type V = ProfileModel;

    open spec fn view(&self) -> ProfileModel {
        ProfileModel {
            name: self.name@,
            family: self.family,
            version: self.version@,
            peer_id_prefix: self.peer_id_prefix@,
            peer_id_random_type: self.peer_id_random_type,
            peer_id_url_encode: self.peer_id_url_encode,
            peer_id_url_encode_uppercase: self.peer_id_url_encode_uppercase,
            key_format: self.key_format,
            key_uppercase: self.key_uppercase,
            http_protocol: self.http_protocol@,
            query_template: self.query_template@,
            headers_template: self.headers_template@,
            hash_uppercase: self.hash_uppercase,
            default_numwant: self.default_numwant,
            compact: self.compact,
            no_peer_id: self.no_peer_id,
        }
    }
}

/// The profile model with the given fields.
pub open spec fn profile_model(
    name: Seq<char>,
    family: ClientFamily,
    version: Seq<char>,
    peer_id_prefix: Seq<u8>,
    peer_id_random_type: RandomType,
    peer_id_url_encode: bool,
    peer_id_url_encode_uppercase: bool,
    key_format: KeyFormat,
    key_uppercase: bool,
    http_protocol: Seq<char>,
    query_template: Seq<char>,
    headers_template: Seq<char>,
    hash_uppercase: bool,
    default_numwant: u16,
    compact: bool,
    no_peer_id: bool,
) -> ProfileModel {
    ProfileModel {
        name,
        family,
        version,
        peer_id_prefix,
        peer_id_random_type,
        peer_id_url_encode,
        peer_id_url_encode_uppercase,
        key_format,
        key_uppercase,
        http_protocol,
        query_template,
        headers_template,
        hash_uppercase,
        default_numwant,
        compact,
        no_peer_id,
    }
}

/// Builds a profile from its fields.
pub fn make_profile(
    name: &str,
    family: ClientFamily,
    version: &str,
    peer_id_prefix: &[u8],
    peer_id_random_type: RandomType,
    peer_id_url_encode: bool,
    peer_id_url_encode_uppercase: bool,
    key_format: KeyFormat,
    key_uppercase: bool,
    http_protocol: &str,
    query_template: &str,
    headers_template: &str,
    hash_uppercase: bool,
    default_numwant: u16,
    compact: bool,
    no_peer_id: bool,
) -> (r: ClientProfile)
    ensures
        r@ == profile_model(
            name@,
            family,
            version@,
            peer_id_prefix@,
            peer_id_random_type,
            peer_id_url_encode,
            peer_id_url_encode_uppercase,
            key_format,
            key_uppercase,
            http_protocol@,
            query_template@,
            headers_template@,
            hash_uppercase,
            default_numwant,
            compact,
            no_peer_id,
        ),
{
    ClientProfile {
        name: String::from_str(name),
        family,
        version: String::from_str(version),
        peer_id_prefix: crate::text::slice_to_vec(peer_id_prefix),
        peer_id_random_type,
        peer_id_url_encode,
        peer_id_url_encode_uppercase,
        key_format,
        key_uppercase,
        http_protocol: String::from_str(http_protocol),
        query_template: String::from_str(query_template),
        headers_template: String::from_str(headers_template),
        hash_uppercase,
        default_numwant,
        compact,
        no_peer_id,
    }
}

/// The model of a client profile holds each of its fields under the same
/// name: texts by their characters, the rest as it is.
pub proof fn law_profile_view(p: ClientProfile)
    ensures
        p@.name == p.name@,
        p@.family == p.family,
        p@.version == p.version@,
        p@.peer_id_prefix == p.peer_id_prefix@,
        p@.peer_id_random_type == p.peer_id_random_type,
        p@.peer_id_url_encode == p.peer_id_url_encode,
        p@.peer_id_url_encode_uppercase == p.peer_id_url_encode_uppercase,
        p@.key_format == p.key_format,
        p@.key_uppercase == p.key_uppercase,
        p@.http_protocol == p.http_protocol@,
        p@.query_template == p.query_template@,
        p@.headers_template == p.headers_template@,
        p@.hash_uppercase == p.hash_uppercase,
        p@.default_numwant == p.default_numwant,
        p@.compact == p.compact,
        p@.no_peer_id == p.no_peer_id,
{
}

/// A profile model made from its fields holds each under its own name.
pub proof fn law_profile_model_fields(
    name: Seq<char>,
    family: ClientFamily,
    version: Seq<char>,
    peer_id_prefix: Seq<u8>,
    peer_id_random_type: RandomType,
    peer_id_url_encode: bool,
    peer_id_url_encode_uppercase: bool,
    key_format: KeyFormat,
    key_uppercase: bool,
    http_protocol: Seq<char>,
    query_template: Seq<char>,
    headers_template: Seq<char>,
    hash_uppercase: bool,
    default_numwant: u16,
    compact: bool,
    no_peer_id: bool,
)
    ensures
        ({
            let m = profile_model(
                name,
                family,
                version,
                peer_id_prefix,
                peer_id_random_type,
                peer_id_url_encode,
                peer_id_url_encode_uppercase,
                key_format,
                key_uppercase,
                http_protocol,
                query_template,
                headers_template,
                hash_uppercase,
                default_numwant,
                compact,
                no_peer_id,
            );
            &&& m.name == name
            &&& m.family == family
            &&& m.version == version
            &&& m.peer_id_prefix == peer_id_prefix
            &&& m.peer_id_random_type == peer_id_random_type
            &&& m.peer_id_url_encode == peer_id_url_encode
            &&& m.peer_id_url_encode_uppercase == peer_id_url_encode_uppercase
            &&& m.key_format == key_format
            &&& m.key_uppercase == key_uppercase
            &&& m.http_protocol == http_protocol
            &&& m.query_template == query_template
            &&& m.headers_template == headers_template
            &&& m.hash_uppercase == hash_uppercase
            &&& m.default_numwant == default_numwant
            &&& m.compact == compact
            &&& m.no_peer_id == no_peer_id
        }),
{
}

} // verus!
