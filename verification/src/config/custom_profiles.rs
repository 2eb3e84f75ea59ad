//! Custom client profiles: the definitions users write in TOML files (in
//! the `profiles/` directory of the configuration) and their conversion to
//! client profiles. Finding and reading the files is done by the
//! application.
use vstd::prelude::*;
use vstd::utf8::encode_utf8;

use crate::client::{profile_model, ClientFamily, ClientProfile, KeyFormat, ProfileModel, RandomType};
use crate::strings::{
    chars_range, find_char, index_of, lemma_index_of, lowercase, str_chars, str_eq,
    string_from_chars, to_lowercase,
};
use crate::text::{parse_unsigned, parse_unsigned_bytes, slice_to_vec};

verus! {

/// TOML representation of a custom client profile.
#[derive(Debug, Clone)]
pub struct CustomProfileDef {
    /// Human-readable name (e.g., "MyClient 1.0").
    pub name: String,
    /// Client family: "utorrent", "bitcomet", "vuze", "transmission", etc.
    pub family: String,
    /// Version string.
    pub version: String,
    /// Peer ID prefix as a string (e.g., "-UT3320-").
    pub peer_id_prefix: String,
    /// Random type for peer ID suffix: "alphanumeric", "numeric", "random", "hex".
    pub peer_id_random_type: String,
    /// Whether to URL-encode the peer ID.
    pub peer_id_url_encode: bool,
    /// Whether URL-encoded hex is uppercase.
    pub peer_id_url_encode_uppercase: bool,
    /// Key format: "numeric:N", "alphanumeric:N", "hex:N".
    pub key_format: String,
    /// Whether the key uses uppercase.
    pub key_uppercase: bool,
    /// HTTP protocol version: "HTTP/1.0" or "HTTP/1.1".
    pub http_protocol: String,
    /// Query template with placeholders.
    pub query_template: String,
    /// Headers template.
    pub headers_template: String,
    /// Whether info_hash is encoded with uppercase hex.
    pub hash_uppercase: bool,
    /// Default numwant value.
    pub default_numwant: u16,
    /// Whether to request compact peer format.
    pub compact: bool,
    /// Whether to request peers without IDs.
    pub no_peer_id: bool,
}

/// The family of a profile file entry that names none: `utorrent`.
pub fn default_family() -> (r: String)
    ensures
        r@ == "utorrent"@,
{
    String::from_str("utorrent")
}

/// The peer ID random type of an entry that names none: `alphanumeric`.
pub fn default_random_type() -> (r: String)
    ensures
        r@ == "alphanumeric"@,
{
    String::from_str("alphanumeric")
}

/// The key format of an entry that names none: eight hexadecimal digits.
pub fn default_key_format() -> (r: String)
    ensures
        r@ == "hex:8"@,
{
    String::from_str("hex:8")
}

/// The HTTP protocol of an entry that names none: `HTTP/1.1`.
pub fn default_http_protocol() -> (r: String)
    ensures
        r@ == "HTTP/1.1"@,
{
    String::from_str("HTTP/1.1")
}

/// The number of peers an entry asks for when it names none: 200.
pub fn default_numwant() -> (r: u16)
    ensures
        r == 200,
{
    200
}

/// Whether an entry asks for compact peers when it does not say: yes.
pub fn default_true() -> (r: bool)
    ensures
        r,
{
    true
}

/// TOML file containing custom profiles.
#[derive(Debug, Clone)]
pub struct CustomProfilesFile {
    /// List of profile definitions.
    pub profiles: Vec<CustomProfileDef>,
}

// ---------------------------------------------------------------------------
// Specification
// ---------------------------------------------------------------------------

/// The client family a lowercase name denotes.
pub open spec fn family_named(n: Seq<char>) -> Option<ClientFamily> {
    if n == "utorrent"@ {
        Some(ClientFamily::UTorrent)
    } else if n == "bitcomet"@ {
        Some(ClientFamily::BitComet)
    } else if n == "vuze"@ {
        Some(ClientFamily::Vuze)
    } else if n == "azureus"@ {
        Some(ClientFamily::Azureus)
    } else if n == "bittorrent"@ {
        Some(ClientFamily::BitTorrent)
    } else if n == "transmission"@ {
        Some(ClientFamily::Transmission)
    } else if n == "abc"@ {
        Some(ClientFamily::ABC)
    } else if n == "bitlord"@ {
        Some(ClientFamily::BitLord)
    } else if n == "btuga"@ {
        Some(ClientFamily::BTuga)
    } else if n == "bittornado"@ {
        Some(ClientFamily::BitTornado)
    } else if n == "burst"@ {
        Some(ClientFamily::Burst)
    } else if n == "bittyrant"@ {
        Some(ClientFamily::BitTyrant)
    } else if n == "bitspirit"@ {
        Some(ClientFamily::BitSpirit)
    } else if n == "ktorrent"@ {
        Some(ClientFamily::KTorrent)
    } else if n == "deluge"@ {
        Some(ClientFamily::Deluge)
    } else if n == "gnomebt"@ {
        Some(ClientFamily::GnomeBT)
    } else {
        None
    }
}

/// The random type a lowercase name denotes.
pub open spec fn random_type_named(n: Seq<char>) -> Option<RandomType> {
    if n == "alphanumeric"@ {
        Some(RandomType::Alphanumeric)
    } else if n == "numeric"@ {
        Some(RandomType::Numeric)
    } else if n == "random"@ {
        Some(RandomType::Random)
    } else if n == "hex"@ {
        Some(RandomType::Hex)
    } else {
        None
    }
}

/// A key format `type:length`: the type (any case) `numeric`,
/// `alphanumeric` or `hex`, and a decimal length.
pub open spec fn key_format_spec(s: Seq<char>) -> Result<KeyFormat, Seq<char>> {
    match index_of(s, ':', 0) {
        None => Err("invalid key format: "@ + s + " (expected 'type:length')"@),
        Some(k) => {
            let len_text = s.skip(k + 1);
            match parse_unsigned(encode_utf8(len_text), usize::MAX as nat) {
                None => Err("invalid key length: "@ + len_text),
                Some(n) => {
                    let t = lowercase(s.take(k));
                    if t == "numeric"@ {
                        Ok(KeyFormat::Numeric(n as usize))
                    } else if t == "alphanumeric"@ {
                        Ok(KeyFormat::Alphanumeric(n as usize))
                    } else if t == "hex"@ {
                        Ok(KeyFormat::Hex(n as usize))
                    } else {
                        Err("unknown key format type: "@ + t)
                    }
                },
            }
        },
    }
}

/// A key format names its type before the first `:` and its length after
/// it: whatever the case of the type name, `numeric`, `alphanumeric` and
/// `hex` give the format of that type, with the length the digits spell.
pub proof fn law_key_format_types(kind: Seq<char>, digits: Seq<char>, n: nat)
    requires
        forall|j: int| 0 <= j < kind.len() ==> kind[j] != ':',
        parse_unsigned(encode_utf8(digits), usize::MAX as nat) == Some(n),
    ensures
        lowercase(kind) == "numeric"@ ==> key_format_spec(kind + ":"@ + digits) == Ok::<
            KeyFormat,
            Seq<char>,
        >(KeyFormat::Numeric(n as usize)),
        lowercase(kind) == "alphanumeric"@ ==> key_format_spec(kind + ":"@ + digits) == Ok::<
            KeyFormat,
            Seq<char>,
        >(KeyFormat::Alphanumeric(n as usize)),
        lowercase(kind) == "hex"@ ==> key_format_spec(kind + ":"@ + digits) == Ok::<
            KeyFormat,
            Seq<char>,
        >(KeyFormat::Hex(n as usize)),
{
    reveal_strlit(":");
    reveal_strlit("numeric");
    reveal_strlit("alphanumeric");
    reveal_strlit("hex");
    let s = kind + ":"@ + digits;
    let k = kind.len() as int;
    assert(s[k] == ':');
    lemma_index_of(s, ':', 0);
    assert(index_of(s, ':', 0) == Some(k)) by {
        match index_of(s, ':', 0) {
            Some(m) => {
                if m < k {
                    assert(s[m] == kind[m]);
                } else if m > k {
                    assert(s[k] == ':');
                }
            },
            None => {
                assert(s[k] == ':');
            },
        }
    }
    assert(s.skip(k + 1) =~= digits);
    assert(s.take(k) =~= kind);
    assert("numeric"@.len() == 7 && "alphanumeric"@.len() == 12 && "hex"@.len() == 3);
}

/// Each client family has its own lowercase name, and each name its own
/// family; any other name denotes none.
pub proof fn law_family_names(n: Seq<char>)
    ensures
        family_named("utorrent"@) == Some(ClientFamily::UTorrent),
        family_named("bitcomet"@) == Some(ClientFamily::BitComet),
        family_named("vuze"@) == Some(ClientFamily::Vuze),
        family_named("azureus"@) == Some(ClientFamily::Azureus),
        family_named("bittorrent"@) == Some(ClientFamily::BitTorrent),
        family_named("transmission"@) == Some(ClientFamily::Transmission),
        family_named("abc"@) == Some(ClientFamily::ABC),
        family_named("bitlord"@) == Some(ClientFamily::BitLord),
        family_named("btuga"@) == Some(ClientFamily::BTuga),
        family_named("bittornado"@) == Some(ClientFamily::BitTornado),
        family_named("burst"@) == Some(ClientFamily::Burst),
        family_named("bittyrant"@) == Some(ClientFamily::BitTyrant),
        family_named("bitspirit"@) == Some(ClientFamily::BitSpirit),
        family_named("ktorrent"@) == Some(ClientFamily::KTorrent),
        family_named("deluge"@) == Some(ClientFamily::Deluge),
        family_named("gnomebt"@) == Some(ClientFamily::GnomeBT),
        n != "utorrent"@ && n != "bitcomet"@ && n != "vuze"@ && n != "azureus"@ && n != "bittorrent"@ && n != "transmission"@ && n != "abc"@ && n != "bitlord"@ && n != "btuga"@ && n != "bittornado"@ && n != "burst"@ && n != "bittyrant"@ && n != "bitspirit"@ && n != "ktorrent"@ && n != "deluge"@ && n != "gnomebt"@ ==> family_named(n) is None,
{
    reveal_strlit("utorrent");
    reveal_strlit("bitcomet");
    reveal_strlit("vuze");
    reveal_strlit("azureus");
    reveal_strlit("bittorrent");
    reveal_strlit("transmission");
    reveal_strlit("abc");
    reveal_strlit("bitlord");
    reveal_strlit("btuga");
    reveal_strlit("bittornado");
    reveal_strlit("burst");
    reveal_strlit("bittyrant");
    reveal_strlit("bitspirit");
    reveal_strlit("ktorrent");
    reveal_strlit("deluge");
    reveal_strlit("gnomebt");
    // The names differ in length, or at a position where they differ.
    assert("utorrent"@.len() == 8);
    assert("bitcomet"@.len() == 8);
    assert("vuze"@.len() == 4);
    assert("azureus"@.len() == 7);
    assert("bittorrent"@.len() == 10);
    assert("transmission"@.len() == 12);
    assert("abc"@.len() == 3);
    assert("bitlord"@.len() == 7);
    assert("btuga"@.len() == 5);
    assert("bittornado"@.len() == 10);
    assert("burst"@.len() == 5);
    assert("bittyrant"@.len() == 9);
    assert("bitspirit"@.len() == 9);
    assert("ktorrent"@.len() == 8);
    assert("deluge"@.len() == 6);
    assert("gnomebt"@.len() == 7);
    assert("utorrent"@[0] != "bitcomet"@[0]);
    assert("utorrent"@[0] != "ktorrent"@[0]);
    assert("bitcomet"@[0] != "ktorrent"@[0]);
    assert("azureus"@[0] != "bitlord"@[0]);
    assert("azureus"@[0] != "gnomebt"@[0]);
    assert("bittorrent"@[6] != "bittornado"@[6]);
    assert("bitlord"@[0] != "gnomebt"@[0]);
    assert("btuga"@[1] != "burst"@[1]);
    assert("bittyrant"@[3] != "bitspirit"@[3]);
}

/// Each random type has its own lowercase name: `alphanumeric`, `numeric`,
/// `random` and `hex`; any other name denotes none.
pub proof fn law_random_type_names(n: Seq<char>)
    ensures
        random_type_named("alphanumeric"@) == Some(RandomType::Alphanumeric),
        random_type_named("numeric"@) == Some(RandomType::Numeric),
        random_type_named("random"@) == Some(RandomType::Random),
        random_type_named("hex"@) == Some(RandomType::Hex),
        n != "alphanumeric"@ && n != "numeric"@ && n != "random"@ && n != "hex"@ ==> random_type_named(n) is None,
{
    reveal_strlit("alphanumeric");
    reveal_strlit("numeric");
    reveal_strlit("random");
    reveal_strlit("hex");
    // The names differ in length, or at a position where they differ.
    assert("alphanumeric"@.len() == 12);
    assert("numeric"@.len() == 7);
    assert("random"@.len() == 6);
    assert("hex"@.len() == 3);
}

/// The profile a definition describes, or why it describes none.
pub open spec fn client_profile_spec(d: CustomProfileDef) -> Result<ProfileModel, Seq<char>> {
    let fam = lowercase(d.family@);
    match family_named(fam) {
        None => Err("unknown client family: "@ + fam),
        Some(family) => {
            let rt = lowercase(d.peer_id_random_type@);
            match random_type_named(rt) {
                None => Err("unknown random type: "@ + rt),
                Some(random_type) => match key_format_spec(d.key_format@) {
                    Err(e) => Err(e),
                    Ok(key_format) => Ok(
                        profile_model(
                            d.name@,
                            family,
                            d.version@,
                            encode_utf8(d.peer_id_prefix@),
                            random_type,
                            d.peer_id_url_encode,
                            d.peer_id_url_encode_uppercase,
                            key_format,
                            d.key_uppercase,
                            d.http_protocol@,
                            d.query_template@,
                            d.headers_template@,
                            d.hash_uppercase,
                            d.default_numwant,
                            d.compact,
                            d.no_peer_id,
                        ),
                    ),
                },
            }
        },
    }
}

/// A custom profile is made from its definition field by field: the text
/// and flag fields carry over as written (the peer ID prefix as its UTF-8
/// bytes), the family, random type and key format are the ones their names
/// denote, whatever their case; a definition is refused exactly when one of
/// those three names denotes nothing.
pub proof fn law_custom_profile_fields(d: CustomProfileDef)
    ensures
        client_profile_spec(d) is Ok <==> (family_named(lowercase(d.family@)) is Some && random_type_named(
            lowercase(d.peer_id_random_type@),
        ) is Some && key_format_spec(d.key_format@) is Ok),
        client_profile_spec(d) is Ok ==> ({
            let m = client_profile_spec(d)->Ok_0;
            &&& m.name == d.name@ && m.version == d.version@
            &&& Some(m.family) == family_named(lowercase(d.family@))
            &&& Some(m.peer_id_random_type) == random_type_named(lowercase(d.peer_id_random_type@))
            &&& Ok::<KeyFormat, Seq<char>>(m.key_format) == key_format_spec(d.key_format@)
            &&& m.peer_id_prefix == encode_utf8(d.peer_id_prefix@)
            &&& m.peer_id_url_encode == d.peer_id_url_encode
            &&& m.peer_id_url_encode_uppercase == d.peer_id_url_encode_uppercase
            &&& m.key_uppercase == d.key_uppercase
            &&& m.http_protocol == d.http_protocol@
            &&& m.query_template == d.query_template@
            &&& m.headers_template == d.headers_template@
            &&& m.hash_uppercase == d.hash_uppercase
            &&& m.default_numwant == d.default_numwant
            &&& m.compact == d.compact
            &&& m.no_peer_id == d.no_peer_id
        }),
{
}

// ---------------------------------------------------------------------------
// Implementation
// ---------------------------------------------------------------------------

/// The client family a lowercase name denotes.
pub fn family_from_name(n: &str) -> (r: Option<ClientFamily>)
    ensures
        r == family_named(n@),
{
    if str_eq(n, "utorrent") {
        Some(ClientFamily::UTorrent)
    } else if str_eq(n, "bitcomet") {
        Some(ClientFamily::BitComet)
    } else if str_eq(n, "vuze") {
        Some(ClientFamily::Vuze)
    } else if str_eq(n, "azureus") {
        Some(ClientFamily::Azureus)
    } else if str_eq(n, "bittorrent") {
        Some(ClientFamily::BitTorrent)
    } else if str_eq(n, "transmission") {
        Some(ClientFamily::Transmission)
    } else if str_eq(n, "abc") {
        Some(ClientFamily::ABC)
    } else if str_eq(n, "bitlord") {
        Some(ClientFamily::BitLord)
    } else if str_eq(n, "btuga") {
        Some(ClientFamily::BTuga)
    } else if str_eq(n, "bittornado") {
        Some(ClientFamily::BitTornado)
    } else if str_eq(n, "burst") {
        Some(ClientFamily::Burst)
    } else if str_eq(n, "bittyrant") {
        Some(ClientFamily::BitTyrant)
    } else if str_eq(n, "bitspirit") {
        Some(ClientFamily::BitSpirit)
    } else if str_eq(n, "ktorrent") {
        Some(ClientFamily::KTorrent)
    } else if str_eq(n, "deluge") {
        Some(ClientFamily::Deluge)
    } else if str_eq(n, "gnomebt") {
        Some(ClientFamily::GnomeBT)
    } else {
        None
    }
}

/// The random type a lowercase name denotes.
pub fn random_type_from_name(n: &str) -> (r: Option<RandomType>)
    ensures
        r == random_type_named(n@),
{
    if str_eq(n, "alphanumeric") {
        Some(RandomType::Alphanumeric)
    } else if str_eq(n, "numeric") {
        Some(RandomType::Numeric)
    } else if str_eq(n, "random") {
        Some(RandomType::Random)
    } else if str_eq(n, "hex") {
        Some(RandomType::Hex)
    } else {
        None
    }
}

/// Parses a key format string like "hex:8" or "numeric:10".
pub fn parse_key_format(s: &str) -> (r: Result<KeyFormat, String>)
    ensures
        match key_format_spec(s@) {
            Ok(k) => r == Ok::<KeyFormat, String>(k),
            Err(m) => r matches Err(x) && x@ == m,
        },
{
    let c = str_chars(s);
    proof {
        lemma_index_of(c@, ':', 0);
    }
    let k = match find_char(c.as_slice(), ':', 0) {
        Some(k) => k,
        None => {
            let msg = String::from_str("invalid key format: ").concat(s).concat(
                " (expected 'type:length')",
            );
            return Err(msg);
        },
    };
    let len_chars = chars_range(c.as_slice(), k + 1, c.len());
    assert(len_chars@ =~= c@.skip(k + 1));
    let len_text = string_from_chars(len_chars.as_slice());
    let len = match parse_unsigned_bytes(len_text.as_str().as_bytes(), usize::MAX as u64) {
        Some(n) => n as usize,
        None => {
            return Err(String::from_str("invalid key length: ").concat(len_text.as_str()));
        },
    };
    let kind_chars = chars_range(c.as_slice(), 0, k);
    assert(kind_chars@ =~= c@.take(k as int));
    let kind = string_from_chars(kind_chars.as_slice());
    let t = to_lowercase(kind.as_str());
    if str_eq(t.as_str(), "numeric") {
        Ok(KeyFormat::Numeric(len))
    } else if str_eq(t.as_str(), "alphanumeric") {
        Ok(KeyFormat::Alphanumeric(len))
    } else if str_eq(t.as_str(), "hex") {
        Ok(KeyFormat::Hex(len))
    } else {
        Err(String::from_str("unknown key format type: ").concat(t.as_str()))
    }
}

impl CustomProfileDef {
    /// Converts the TOML definition to a `ClientProfile`.
    pub fn to_client_profile(&self) -> (r: Result<ClientProfile, String>)
        ensures
            match client_profile_spec(*self) {
                Ok(m) => r matches Ok(p) && p@ == m,
                Err(e) => r matches Err(x) && x@ == e,
            },
    {
        let fam = to_lowercase(self.family.as_str());
        let family = match family_from_name(fam.as_str()) {
            Some(f) => f,
            None => {
                return Err(String::from_str("unknown client family: ").concat(fam.as_str()));
            },
        };
        let rt = to_lowercase(self.peer_id_random_type.as_str());
        let random_type = match random_type_from_name(rt.as_str()) {
            Some(t) => t,
            None => {
                return Err(String::from_str("unknown random type: ").concat(rt.as_str()));
            },
        };
        let key_format = match parse_key_format(self.key_format.as_str()) {
            Ok(k) => k,
            Err(e) => {
                return Err(e);
            },
        };
        Ok(
            ClientProfile {
                name: String::from_str(self.name.as_str()),
                family,
                version: String::from_str(self.version.as_str()),
                peer_id_prefix: slice_to_vec(self.peer_id_prefix.as_str().as_bytes()),
                peer_id_random_type: random_type,
                peer_id_url_encode: self.peer_id_url_encode,
                peer_id_url_encode_uppercase: self.peer_id_url_encode_uppercase,
                key_format,
                key_uppercase: self.key_uppercase,
                http_protocol: String::from_str(self.http_protocol.as_str()),
                query_template: String::from_str(self.query_template.as_str()),
                headers_template: String::from_str(self.headers_template.as_str()),
                hash_uppercase: self.hash_uppercase,
                default_numwant: self.default_numwant,
                compact: self.compact,
                no_peer_id: self.no_peer_id,
            },
        )
    }
}

/// Returns the directory of custom profile files, `profiles` in the
/// configuration directory.
pub fn profiles_dir() -> (r: String)
    ensures
        super::in_config_dir("profiles"@, r@),
{
    let dir = super::config_dir();
    proof {
        reveal_strlit("profiles");
    }
    super::in_dir(&dir, "profiles")
}

} // verus!
