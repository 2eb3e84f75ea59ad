//! The registry of supported BitTorrent client profiles: 41 profiles across
//! 16 client families.
use vstd::prelude::*;
use vstd::string::StringSliceAdditionalSpecFns;
use vstd::utf8::encode_utf8;

use super::{
    make_profile, profile_model, ClientFamily, ClientProfile, KeyFormat,
    ProfileModel, RandomType,
};
use crate::text::{ascii_lower, bytes_eq_ignore_ascii_case, eq_ignore_ascii_case};

verus! {

broadcast use vstd::std_specs::vec::group_vec_axioms;

/// The models of a list of profiles.
pub open spec fn profiles_view(v: Seq<ClientProfile>) -> Seq<ProfileModel> {
    v.map_values(|p: ClientProfile| p@)
}

// ---------------------------------------------------------------------------
// uTorrent (12 versions)
// ---------------------------------------------------------------------------

/// The uTorrent profiles.
pub open spec fn utorrent_table() -> Seq<ProfileModel> {
    seq![
        profile_model(
            "uTorrent 3.3.2"@,
            ClientFamily::UTorrent,
            "3.3.2"@,
            "-UT3320-".spec_bytes(),
            RandomType::Random,
            true,
            false,
            KeyFormat::Hex(8),
            false,
            "HTTP/1.1"@,
            "info_hash={infohash}&peer_id={peerid}&port={port}&uploaded={uploaded}&downloaded={downloaded}&left={left}&corrupt=0&key={key}{event}&numwant={numwant}&compact=1&no_peer_id=1"@,
            "User-Agent: uTorrent/33200\r\nAccept-Encoding: gzip"@,
            false,
            200,
            true,
            true,
        ),
        profile_model(
            "uTorrent 3.3.0"@,
            ClientFamily::UTorrent,
            "3.3.0"@,
            "-UT3300-".spec_bytes(),
            RandomType::Random,
            true,
            false,
            KeyFormat::Hex(8),
            false,
            "HTTP/1.1"@,
            "info_hash={infohash}&peer_id={peerid}&port={port}&uploaded={uploaded}&downloaded={downloaded}&left={left}&corrupt=0&key={key}{event}&numwant={numwant}&compact=1&no_peer_id=1"@,
            "User-Agent: uTorrent/33000\r\nAccept-Encoding: gzip"@,
            false,
            200,
            true,
            true,
        ),
        profile_model(
            "uTorrent 3.2.0"@,
            ClientFamily::UTorrent,
            "3.2.0"@,
            "-UT3200-".spec_bytes(),
            RandomType::Random,
            true,
            false,
            KeyFormat::Hex(8),
            false,
            "HTTP/1.1"@,
            "info_hash={infohash}&peer_id={peerid}&port={port}&uploaded={uploaded}&downloaded={downloaded}&left={left}&corrupt=0&key={key}{event}&numwant={numwant}&compact=1&no_peer_id=1"@,
            "User-Agent: uTorrent/32000\r\nAccept-Encoding: gzip"@,
            false,
            200,
            true,
            true,
        ),
        profile_model(
            "uTorrent 2.0.1(19078)"@,
            ClientFamily::UTorrent,
            "2.0.1"@,
            "-UT2010-".spec_bytes(),
            RandomType::Random,
            true,
            false,
            KeyFormat::Hex(8),
            false,
            "HTTP/1.1"@,
            "info_hash={infohash}&peer_id={peerid}&port={port}&uploaded={uploaded}&downloaded={downloaded}&left={left}&corrupt=0&key={key}{event}&numwant={numwant}&compact=1&no_peer_id=1"@,
            "User-Agent: uTorrent/20100\r\nAccept-Encoding: gzip"@,
            false,
            200,
            true,
            true,
        ),
        profile_model(
            "uTorrent 1.8.5(17414)"@,
            ClientFamily::UTorrent,
            "1.8.5"@,
            "-UT1850-".spec_bytes(),
            RandomType::Random,
            true,
            false,
            KeyFormat::Hex(8),
            false,
            "HTTP/1.1"@,
            "info_hash={infohash}&peer_id={peerid}&port={port}&uploaded={uploaded}&downloaded={downloaded}&left={left}&corrupt=0&key={key}{event}&numwant={numwant}&compact=1&no_peer_id=1"@,
            "User-Agent: uTorrent/18500\r\nAccept-Encoding: gzip"@,
            false,
            200,
            true,
            true,
        ),
        profile_model(
            "uTorrent 1.8.1-beta(11903)"@,
            ClientFamily::UTorrent,
            "1.8.1"@,
            "-UT1810-".spec_bytes(),
            RandomType::Random,
            true,
            false,
            KeyFormat::Hex(8),
            false,
            "HTTP/1.1"@,
            "info_hash={infohash}&peer_id={peerid}&port={port}&uploaded={uploaded}&downloaded={downloaded}&left={left}&corrupt=0&key={key}{event}&numwant={numwant}&compact=1&no_peer_id=1"@,
            "User-Agent: uTorrent/18100\r\nAccept-Encoding: gzip"@,
            false,
            200,
            true,
            true,
        ),
        profile_model(
            "uTorrent 1.8.0"@,
            ClientFamily::UTorrent,
            "1.8.0"@,
            "-UT1800-".spec_bytes(),
            RandomType::Random,
            true,
            false,
            KeyFormat::Hex(8),
            false,
            "HTTP/1.1"@,
            "info_hash={infohash}&peer_id={peerid}&port={port}&uploaded={uploaded}&downloaded={downloaded}&left={left}&corrupt=0&key={key}{event}&numwant={numwant}&compact=1&no_peer_id=1"@,
            "User-Agent: uTorrent/18000\r\nAccept-Encoding: gzip"@,
            false,
            200,
            true,
            true,
        ),
        profile_model(
            "uTorrent 1.7.7"@,
            ClientFamily::UTorrent,
            "1.7.7"@,
            "-UT1770-".spec_bytes(),
            RandomType::Random,
            true,
            false,
            KeyFormat::Hex(8),
            false,
            "HTTP/1.1"@,
            "info_hash={infohash}&peer_id={peerid}&port={port}&uploaded={uploaded}&downloaded={downloaded}&left={left}&corrupt=0&key={key}{event}&numwant={numwant}&compact=1&no_peer_id=1"@,
            "User-Agent: uTorrent/17700\r\nAccept-Encoding: gzip"@,
            false,
            200,
            true,
            true,
        ),
        profile_model(
            "uTorrent 1.7.6"@,
            ClientFamily::UTorrent,
            "1.7.6"@,
            "-UT1760-".spec_bytes(),
            RandomType::Random,
            true,
            false,
            KeyFormat::Hex(8),
            false,
            "HTTP/1.1"@,
            "info_hash={infohash}&peer_id={peerid}&port={port}&uploaded={uploaded}&downloaded={downloaded}&left={left}&corrupt=0&key={key}{event}&numwant={numwant}&compact=1&no_peer_id=1"@,
            "User-Agent: uTorrent/17600\r\nAccept-Encoding: gzip"@,
            false,
            200,
            true,
            true,
        ),
        profile_model(
            "uTorrent 1.7.5"@,
            ClientFamily::UTorrent,
            "1.7.5"@,
            "-UT1750-".spec_bytes(),
            RandomType::Random,
            true,
            false,
            KeyFormat::Hex(8),
            false,
            "HTTP/1.1"@,
            "info_hash={infohash}&peer_id={peerid}&port={port}&uploaded={uploaded}&downloaded={downloaded}&left={left}&corrupt=0&key={key}{event}&numwant={numwant}&compact=1&no_peer_id=1"@,
            "User-Agent: uTorrent/17500\r\nAccept-Encoding: gzip"@,
            false,
            200,
            true,
            true,
        ),
        profile_model(
            "uTorrent 1.6.1"@,
            ClientFamily::UTorrent,
            "1.6.1"@,
            "-UT1610-".spec_bytes(),
            RandomType::Random,
            true,
            false,
            KeyFormat::Hex(8),
            false,
            "HTTP/1.1"@,
            "info_hash={infohash}&peer_id={peerid}&port={port}&uploaded={uploaded}&downloaded={downloaded}&left={left}&corrupt=0&key={key}{event}&numwant={numwant}&compact=1&no_peer_id=1"@,
            "User-Agent: uTorrent/16100\r\nAccept-Encoding: gzip"@,
            false,
            200,
            true,
            true,
        ),
        profile_model(
            "uTorrent 1.6"@,
            ClientFamily::UTorrent,
            "1.6"@,
            "-UT1600-".spec_bytes(),
            RandomType::Random,
            true,
            false,
            KeyFormat::Hex(8),
            false,
            "HTTP/1.1"@,
            "info_hash={infohash}&peer_id={peerid}&port={port}&uploaded={uploaded}&downloaded={downloaded}&left={left}&corrupt=0&key={key}{event}&numwant={numwant}&compact=1&no_peer_id=1"@,
            "User-Agent: uTorrent/16000\r\nAccept-Encoding: gzip"@,
            false,
            200,
            true,
            true,
        ),
    ]
}

fn utorrent_profiles() -> (r: Vec<ClientProfile>)
    ensures
        profiles_view(r@) == utorrent_table(),
{
    let mut v: Vec<ClientProfile> = Vec::new();
    v.push(
        make_profile(
            "uTorrent 3.3.2",
            ClientFamily::UTorrent,
            "3.3.2",
            "-UT3320-".as_bytes(),
            RandomType::Random,
            true,
            false,
            KeyFormat::Hex(8),
            false,
            "HTTP/1.1",
            "info_hash={infohash}&peer_id={peerid}&port={port}&uploaded={uploaded}&downloaded={downloaded}&left={left}&corrupt=0&key={key}{event}&numwant={numwant}&compact=1&no_peer_id=1",
            "User-Agent: uTorrent/33200\r\nAccept-Encoding: gzip",
            false,
            200,
            true,
            true,
        ),
    );
    v.push(
        make_profile(
            "uTorrent 3.3.0",
            ClientFamily::UTorrent,
            "3.3.0",
            "-UT3300-".as_bytes(),
            RandomType::Random,
            true,
            false,
            KeyFormat::Hex(8),
            false,
            "HTTP/1.1",
            "info_hash={infohash}&peer_id={peerid}&port={port}&uploaded={uploaded}&downloaded={downloaded}&left={left}&corrupt=0&key={key}{event}&numwant={numwant}&compact=1&no_peer_id=1",
            "User-Agent: uTorrent/33000\r\nAccept-Encoding: gzip",
            false,
            200,
            true,
            true,
        ),
    );
    v.push(
        make_profile(
            "uTorrent 3.2.0",
            ClientFamily::UTorrent,
            "3.2.0",
            "-UT3200-".as_bytes(),
            RandomType::Random,
            true,
            false,
            KeyFormat::Hex(8),
            false,
            "HTTP/1.1",
            "info_hash={infohash}&peer_id={peerid}&port={port}&uploaded={uploaded}&downloaded={downloaded}&left={left}&corrupt=0&key={key}{event}&numwant={numwant}&compact=1&no_peer_id=1",
            "User-Agent: uTorrent/32000\r\nAccept-Encoding: gzip",
            false,
            200,
            true,
            true,
        ),
    );
    v.push(
        make_profile(
            "uTorrent 2.0.1(19078)",
            ClientFamily::UTorrent,
            "2.0.1",
            "-UT2010-".as_bytes(),
            RandomType::Random,
            true,
            false,
            KeyFormat::Hex(8),
            false,
            "HTTP/1.1",
            "info_hash={infohash}&peer_id={peerid}&port={port}&uploaded={uploaded}&downloaded={downloaded}&left={left}&corrupt=0&key={key}{event}&numwant={numwant}&compact=1&no_peer_id=1",
            "User-Agent: uTorrent/20100\r\nAccept-Encoding: gzip",
            false,
            200,
            true,
            true,
        ),
    );
    v.push(
        make_profile(
            "uTorrent 1.8.5(17414)",
            ClientFamily::UTorrent,
            "1.8.5",
            "-UT1850-".as_bytes(),
            RandomType::Random,
            true,
            false,
            KeyFormat::Hex(8),
            false,
            "HTTP/1.1",
            "info_hash={infohash}&peer_id={peerid}&port={port}&uploaded={uploaded}&downloaded={downloaded}&left={left}&corrupt=0&key={key}{event}&numwant={numwant}&compact=1&no_peer_id=1",
            "User-Agent: uTorrent/18500\r\nAccept-Encoding: gzip",
            false,
            200,
            true,
            true,
        ),
    );
    v.push(
        make_profile(
            "uTorrent 1.8.1-beta(11903)",
            ClientFamily::UTorrent,
            "1.8.1",
            "-UT1810-".as_bytes(),
            RandomType::Random,
            true,
            false,
            KeyFormat::Hex(8),
            false,
            "HTTP/1.1",
            "info_hash={infohash}&peer_id={peerid}&port={port}&uploaded={uploaded}&downloaded={downloaded}&left={left}&corrupt=0&key={key}{event}&numwant={numwant}&compact=1&no_peer_id=1",
            "User-Agent: uTorrent/18100\r\nAccept-Encoding: gzip",
            false,
            200,
            true,
            true,
        ),
    );
    v.push(
        make_profile(
            "uTorrent 1.8.0",
            ClientFamily::UTorrent,
            "1.8.0",
            "-UT1800-".as_bytes(),
            RandomType::Random,
            true,
            false,
            KeyFormat::Hex(8),
            false,
            "HTTP/1.1",
            "info_hash={infohash}&peer_id={peerid}&port={port}&uploaded={uploaded}&downloaded={downloaded}&left={left}&corrupt=0&key={key}{event}&numwant={numwant}&compact=1&no_peer_id=1",
            "User-Agent: uTorrent/18000\r\nAccept-Encoding: gzip",
            false,
            200,
            true,
            true,
        ),
    );
    v.push(
        make_profile(
            "uTorrent 1.7.7",
            ClientFamily::UTorrent,
            "1.7.7",
            "-UT1770-".as_bytes(),
            RandomType::Random,
            true,
            false,
            KeyFormat::Hex(8),
            false,
            "HTTP/1.1",
            "info_hash={infohash}&peer_id={peerid}&port={port}&uploaded={uploaded}&downloaded={downloaded}&left={left}&corrupt=0&key={key}{event}&numwant={numwant}&compact=1&no_peer_id=1",
            "User-Agent: uTorrent/17700\r\nAccept-Encoding: gzip",
            false,
            200,
            true,
            true,
        ),
    );
    v.push(
        make_profile(
            "uTorrent 1.7.6",
            ClientFamily::UTorrent,
            "1.7.6",
            "-UT1760-".as_bytes(),
            RandomType::Random,
            true,
            false,
            KeyFormat::Hex(8),
            false,
            "HTTP/1.1",
            "info_hash={infohash}&peer_id={peerid}&port={port}&uploaded={uploaded}&downloaded={downloaded}&left={left}&corrupt=0&key={key}{event}&numwant={numwant}&compact=1&no_peer_id=1",
            "User-Agent: uTorrent/17600\r\nAccept-Encoding: gzip",
            false,
            200,
            true,
            true,
        ),
    );
    v.push(
        make_profile(
            "uTorrent 1.7.5",
            ClientFamily::UTorrent,
            "1.7.5",
            "-UT1750-".as_bytes(),
            RandomType::Random,
            true,
            false,
            KeyFormat::Hex(8),
            false,
            "HTTP/1.1",
            "info_hash={infohash}&peer_id={peerid}&port={port}&uploaded={uploaded}&downloaded={downloaded}&left={left}&corrupt=0&key={key}{event}&numwant={numwant}&compact=1&no_peer_id=1",
            "User-Agent: uTorrent/17500\r\nAccept-Encoding: gzip",
            false,
            200,
            true,
            true,
        ),
    );
    v.push(
        make_profile(
            "uTorrent 1.6.1",
            ClientFamily::UTorrent,
            "1.6.1",
            "-UT1610-".as_bytes(),
            RandomType::Random,
            true,
            false,
            KeyFormat::Hex(8),
            false,
            "HTTP/1.1",
            "info_hash={infohash}&peer_id={peerid}&port={port}&uploaded={uploaded}&downloaded={downloaded}&left={left}&corrupt=0&key={key}{event}&numwant={numwant}&compact=1&no_peer_id=1",
            "User-Agent: uTorrent/16100\r\nAccept-Encoding: gzip",
            false,
            200,
            true,
            true,
        ),
    );
    v.push(
        make_profile(
            "uTorrent 1.6",
            ClientFamily::UTorrent,
            "1.6",
            "-UT1600-".as_bytes(),
            RandomType::Random,
            true,
            false,
            KeyFormat::Hex(8),
            false,
            "HTTP/1.1",
            "info_hash={infohash}&peer_id={peerid}&port={port}&uploaded={uploaded}&downloaded={downloaded}&left={left}&corrupt=0&key={key}{event}&numwant={numwant}&compact=1&no_peer_id=1",
            "User-Agent: uTorrent/16000\r\nAccept-Encoding: gzip",
            false,
            200,
            true,
            true,
        ),
    );
    assert(profiles_view(v@) =~= utorrent_table());
    v
}

// ---------------------------------------------------------------------------
// BitComet (6 versions)
// ---------------------------------------------------------------------------

/// The BitComet profiles.
pub open spec fn bitcomet_table() -> Seq<ProfileModel> {
    seq![
        profile_model(
            "BitComet 1.20"@,
            ClientFamily::BitComet,
            "1.20"@,
            "-BC0120-".spec_bytes(),
            RandomType::Random,
            true,
            true,
            KeyFormat::Numeric(5),
            false,
            "HTTP/1.1"@,
            "info_hash={infohash}&peer_id={peerid}&port={port}&natmapped=1&localip={localip}&port_type=wan&uploaded={uploaded}&downloaded={downloaded}&left={left}&key={key}{event}&numwant={numwant}&compact=1&no_peer_id=1"@,
            "User-Agent: BitComet/120\r\nAccept-Encoding: gzip"@,
            true,
            200,
            true,
            true,
        ),
        profile_model(
            "BitComet 1.03"@,
            ClientFamily::BitComet,
            "1.03"@,
            "-BC0103-".spec_bytes(),
            RandomType::Random,
            true,
            true,
            KeyFormat::Numeric(5),
            false,
            "HTTP/1.1"@,
            "info_hash={infohash}&peer_id={peerid}&port={port}&natmapped=1&localip={localip}&port_type=wan&uploaded={uploaded}&downloaded={downloaded}&left={left}&key={key}{event}&numwant={numwant}&compact=1&no_peer_id=1"@,
            "User-Agent: BitComet/103\r\nAccept-Encoding: gzip"@,
            true,
            200,
            true,
            true,
        ),
        profile_model(
            "BitComet 0.98"@,
            ClientFamily::BitComet,
            "0.98"@,
            "-BC0098-".spec_bytes(),
            RandomType::Random,
            true,
            true,
            KeyFormat::Numeric(5),
            false,
            "HTTP/1.1"@,
            "info_hash={infohash}&peer_id={peerid}&port={port}&natmapped=1&localip={localip}&port_type=wan&uploaded={uploaded}&downloaded={downloaded}&left={left}&key={key}{event}&numwant={numwant}&compact=1&no_peer_id=1"@,
            "User-Agent: BitComet/098\r\nAccept-Encoding: gzip"@,
            true,
            200,
            true,
            true,
        ),
        profile_model(
            "BitComet 0.96"@,
            ClientFamily::BitComet,
            "0.96"@,
            "-BC0096-".spec_bytes(),
            RandomType::Random,
            true,
            true,
            KeyFormat::Numeric(5),
            false,
            "HTTP/1.1"@,
            "info_hash={infohash}&peer_id={peerid}&port={port}&natmapped=1&localip={localip}&port_type=wan&uploaded={uploaded}&downloaded={downloaded}&left={left}&key={key}{event}&numwant={numwant}&compact=1&no_peer_id=1"@,
            "User-Agent: BitComet/096\r\nAccept-Encoding: gzip"@,
            true,
            200,
            true,
            true,
        ),
        profile_model(
            "BitComet 0.93"@,
            ClientFamily::BitComet,
            "0.93"@,
            "-BC0093-".spec_bytes(),
            RandomType::Random,
            true,
            true,
            KeyFormat::Numeric(5),
            false,
            "HTTP/1.1"@,
            "info_hash={infohash}&peer_id={peerid}&port={port}&natmapped=1&localip={localip}&port_type=wan&uploaded={uploaded}&downloaded={downloaded}&left={left}&key={key}{event}&numwant={numwant}&compact=1&no_peer_id=1"@,
            "User-Agent: BitComet/093\r\nAccept-Encoding: gzip"@,
            true,
            200,
            true,
            true,
        ),
        profile_model(
            "BitComet 0.92"@,
            ClientFamily::BitComet,
            "0.92"@,
            "-BC0092-".spec_bytes(),
            RandomType::Random,
            true,
            true,
            KeyFormat::Numeric(5),
            false,
            "HTTP/1.1"@,
            "info_hash={infohash}&peer_id={peerid}&port={port}&natmapped=1&localip={localip}&port_type=wan&uploaded={uploaded}&downloaded={downloaded}&left={left}&key={key}{event}&numwant={numwant}&compact=1&no_peer_id=1"@,
            "User-Agent: BitComet/092\r\nAccept-Encoding: gzip"@,
            true,
            200,
            true,
            true,
        ),
    ]
}

fn bitcomet_profiles() -> (r: Vec<ClientProfile>)
    ensures
        profiles_view(r@) == bitcomet_table(),
{
    let mut v: Vec<ClientProfile> = Vec::new();
    v.push(
        make_profile(
            "BitComet 1.20",
            ClientFamily::BitComet,
            "1.20",
            "-BC0120-".as_bytes(),
            RandomType::Random,
            true,
            true,
            KeyFormat::Numeric(5),
            false,
            "HTTP/1.1",
            "info_hash={infohash}&peer_id={peerid}&port={port}&natmapped=1&localip={localip}&port_type=wan&uploaded={uploaded}&downloaded={downloaded}&left={left}&key={key}{event}&numwant={numwant}&compact=1&no_peer_id=1",
            "User-Agent: BitComet/120\r\nAccept-Encoding: gzip",
            true,
            200,
            true,
            true,
        ),
    );
    v.push(
        make_profile(
            "BitComet 1.03",
            ClientFamily::BitComet,
            "1.03",
            "-BC0103-".as_bytes(),
            RandomType::Random,
            true,
            true,
            KeyFormat::Numeric(5),
            false,
            "HTTP/1.1",
            "info_hash={infohash}&peer_id={peerid}&port={port}&natmapped=1&localip={localip}&port_type=wan&uploaded={uploaded}&downloaded={downloaded}&left={left}&key={key}{event}&numwant={numwant}&compact=1&no_peer_id=1",
            "User-Agent: BitComet/103\r\nAccept-Encoding: gzip",
            true,
            200,
            true,
            true,
        ),
    );
    v.push(
        make_profile(
            "BitComet 0.98",
            ClientFamily::BitComet,
            "0.98",
            "-BC0098-".as_bytes(),
            RandomType::Random,
            true,
            true,
            KeyFormat::Numeric(5),
            false,
            "HTTP/1.1",
            "info_hash={infohash}&peer_id={peerid}&port={port}&natmapped=1&localip={localip}&port_type=wan&uploaded={uploaded}&downloaded={downloaded}&left={left}&key={key}{event}&numwant={numwant}&compact=1&no_peer_id=1",
            "User-Agent: BitComet/098\r\nAccept-Encoding: gzip",
            true,
            200,
            true,
            true,
        ),
    );
    v.push(
        make_profile(
            "BitComet 0.96",
            ClientFamily::BitComet,
            "0.96",
            "-BC0096-".as_bytes(),
            RandomType::Random,
            true,
            true,
            KeyFormat::Numeric(5),
            false,
            "HTTP/1.1",
            "info_hash={infohash}&peer_id={peerid}&port={port}&natmapped=1&localip={localip}&port_type=wan&uploaded={uploaded}&downloaded={downloaded}&left={left}&key={key}{event}&numwant={numwant}&compact=1&no_peer_id=1",
            "User-Agent: BitComet/096\r\nAccept-Encoding: gzip",
            true,
            200,
            true,
            true,
        ),
    );
    v.push(
        make_profile(
            "BitComet 0.93",
            ClientFamily::BitComet,
            "0.93",
            "-BC0093-".as_bytes(),
            RandomType::Random,
            true,
            true,
            KeyFormat::Numeric(5),
            false,
            "HTTP/1.1",
            "info_hash={infohash}&peer_id={peerid}&port={port}&natmapped=1&localip={localip}&port_type=wan&uploaded={uploaded}&downloaded={downloaded}&left={left}&key={key}{event}&numwant={numwant}&compact=1&no_peer_id=1",
            "User-Agent: BitComet/093\r\nAccept-Encoding: gzip",
            true,
            200,
            true,
            true,
        ),
    );
    v.push(
        make_profile(
            "BitComet 0.92",
            ClientFamily::BitComet,
            "0.92",
            "-BC0092-".as_bytes(),
            RandomType::Random,
            true,
            true,
            KeyFormat::Numeric(5),
            false,
            "HTTP/1.1",
            "info_hash={infohash}&peer_id={peerid}&port={port}&natmapped=1&localip={localip}&port_type=wan&uploaded={uploaded}&downloaded={downloaded}&left={left}&key={key}{event}&numwant={numwant}&compact=1&no_peer_id=1",
            "User-Agent: BitComet/092\r\nAccept-Encoding: gzip",
            true,
            200,
            true,
            true,
        ),
    );
    assert(profiles_view(v@) =~= bitcomet_table());
    v
}

// ---------------------------------------------------------------------------
// Vuze / Azureus (7 versions)
// ---------------------------------------------------------------------------

/// The Vuze / Azureus profiles.
pub open spec fn vuze_azureus_table() -> Seq<ProfileModel> {
    seq![
        profile_model(
            "Vuze 4.2.0.8"@,
            ClientFamily::Vuze,
            "4.2.0.8"@,
            "-AZ4208-".spec_bytes(),
            RandomType::Alphanumeric,
            false,
            false,
            KeyFormat::Alphanumeric(8),
            false,
            "HTTP/1.1"@,
            "info_hash={infohash}&peer_id={peerid}&port={port}&azudp={port}&uploaded={uploaded}&downloaded={downloaded}&left={left}&corrupt=0&key={key}{event}&numwant={numwant}&no_peer_id=1&compact=1&supportcrypto=1&azver=3"@,
            "User-Agent: Azureus 4208;{}\r\nAccept-Encoding: gzip"@,
            true,
            50,
            true,
            true,
        ),
        profile_model(
            "Azureus 3.1.1.0"@,
            ClientFamily::Azureus,
            "3.1.1.0"@,
            "-AZ3110-".spec_bytes(),
            RandomType::Alphanumeric,
            false,
            false,
            KeyFormat::Alphanumeric(8),
            false,
            "HTTP/1.1"@,
            "info_hash={infohash}&peer_id={peerid}&port={port}&azudp={port}&uploaded={uploaded}&downloaded={downloaded}&left={left}&corrupt=0&key={key}{event}&numwant={numwant}&no_peer_id=1&compact=1&supportcrypto=1&azver=3"@,
            "User-Agent: Azureus 3110;{}\r\nAccept-Encoding: gzip"@,
            true,
            50,
            true,
            true,
        ),
        profile_model(
            "Azureus 3.0.5.0"@,
            ClientFamily::Azureus,
            "3.0.5.0"@,
            "-AZ3050-".spec_bytes(),
            RandomType::Alphanumeric,
            false,
            false,
            KeyFormat::Alphanumeric(8),
            false,
            "HTTP/1.1"@,
            "info_hash={infohash}&peer_id={peerid}&port={port}&azudp={port}&uploaded={uploaded}&downloaded={downloaded}&left={left}&corrupt=0&key={key}{event}&numwant={numwant}&no_peer_id=1&compact=1&supportcrypto=1&azver=3"@,
            "User-Agent: Azureus 3050;{}\r\nAccept-Encoding: gzip"@,
            true,
            50,
            true,
            true,
        ),
        profile_model(
            "Azureus 3.0.4.2"@,
            ClientFamily::Azureus,
            "3.0.4.2"@,
            "-AZ3042-".spec_bytes(),
            RandomType::Alphanumeric,
            false,
            false,
            KeyFormat::Alphanumeric(8),
            false,
            "HTTP/1.1"@,
            "info_hash={infohash}&peer_id={peerid}&port={port}&azudp={port}&uploaded={uploaded}&downloaded={downloaded}&left={left}&corrupt=0&key={key}{event}&numwant={numwant}&no_peer_id=1&compact=1&supportcrypto=1&azver=3"@,
            "User-Agent: Azureus 3042;{}\r\nAccept-Encoding: gzip"@,
            true,
            50,
            true,
            true,
        ),
        profile_model(
            "Azureus 3.0.3.4"@,
            ClientFamily::Azureus,
            "3.0.3.4"@,
            "-AZ3034-".spec_bytes(),
            RandomType::Alphanumeric,
            false,
            false,
            KeyFormat::Alphanumeric(8),
            false,
            "HTTP/1.1"@,
            "info_hash={infohash}&peer_id={peerid}&port={port}&azudp={port}&uploaded={uploaded}&downloaded={downloaded}&left={left}&corrupt=0&key={key}{event}&numwant={numwant}&no_peer_id=1&compact=1&supportcrypto=1&azver=3"@,
            "User-Agent: Azureus 3034;{}\r\nAccept-Encoding: gzip"@,
            true,
            50,
            true,
            true,
        ),
        profile_model(
            "Azureus 3.0.2.2"@,
            ClientFamily::Azureus,
            "3.0.2.2"@,
            "-AZ3022-".spec_bytes(),
            RandomType::Alphanumeric,
            false,
            false,
            KeyFormat::Alphanumeric(8),
            false,
            "HTTP/1.1"@,
            "info_hash={infohash}&peer_id={peerid}&port={port}&azudp={port}&uploaded={uploaded}&downloaded={downloaded}&left={left}&corrupt=0&key={key}{event}&numwant={numwant}&no_peer_id=1&compact=1&supportcrypto=1&azver=3"@,
            "User-Agent: Azureus 3022;{}\r\nAccept-Encoding: gzip"@,
            true,
            50,
            true,
            true,
        ),
        profile_model(
            "Azureus 2.5.0.4"@,
            ClientFamily::Azureus,
            "2.5.0.4"@,
            "-AZ2504-".spec_bytes(),
            RandomType::Alphanumeric,
            false,
            false,
            KeyFormat::Alphanumeric(8),
            false,
            "HTTP/1.1"@,
            "info_hash={infohash}&peer_id={peerid}&port={port}&azudp={port}&uploaded={uploaded}&downloaded={downloaded}&left={left}&corrupt=0&key={key}{event}&numwant={numwant}&no_peer_id=1&compact=1&supportcrypto=1&azver=3"@,
            "User-Agent: Azureus 2504;{}\r\nAccept-Encoding: gzip"@,
            true,
            50,
            true,
            true,
        ),
    ]
}

fn vuze_azureus_profiles() -> (r: Vec<ClientProfile>)
    ensures
        profiles_view(r@) == vuze_azureus_table(),
{
    let mut v: Vec<ClientProfile> = Vec::new();
    v.push(
        make_profile(
            "Vuze 4.2.0.8",
            ClientFamily::Vuze,
            "4.2.0.8",
            "-AZ4208-".as_bytes(),
            RandomType::Alphanumeric,
            false,
            false,
            KeyFormat::Alphanumeric(8),
            false,
            "HTTP/1.1",
            "info_hash={infohash}&peer_id={peerid}&port={port}&azudp={port}&uploaded={uploaded}&downloaded={downloaded}&left={left}&corrupt=0&key={key}{event}&numwant={numwant}&no_peer_id=1&compact=1&supportcrypto=1&azver=3",
            "User-Agent: Azureus 4208;{}\r\nAccept-Encoding: gzip",
            true,
            50,
            true,
            true,
        ),
    );
    v.push(
        make_profile(
            "Azureus 3.1.1.0",
            ClientFamily::Azureus,
            "3.1.1.0",
            "-AZ3110-".as_bytes(),
            RandomType::Alphanumeric,
            false,
            false,
            KeyFormat::Alphanumeric(8),
            false,
            "HTTP/1.1",
            "info_hash={infohash}&peer_id={peerid}&port={port}&azudp={port}&uploaded={uploaded}&downloaded={downloaded}&left={left}&corrupt=0&key={key}{event}&numwant={numwant}&no_peer_id=1&compact=1&supportcrypto=1&azver=3",
            "User-Agent: Azureus 3110;{}\r\nAccept-Encoding: gzip",
            true,
            50,
            true,
            true,
        ),
    );
    v.push(
        make_profile(
            "Azureus 3.0.5.0",
            ClientFamily::Azureus,
            "3.0.5.0",
            "-AZ3050-".as_bytes(),
            RandomType::Alphanumeric,
            false,
            false,
            KeyFormat::Alphanumeric(8),
            false,
            "HTTP/1.1",
            "info_hash={infohash}&peer_id={peerid}&port={port}&azudp={port}&uploaded={uploaded}&downloaded={downloaded}&left={left}&corrupt=0&key={key}{event}&numwant={numwant}&no_peer_id=1&compact=1&supportcrypto=1&azver=3",
            "User-Agent: Azureus 3050;{}\r\nAccept-Encoding: gzip",
            true,
            50,
            true,
            true,
        ),
    );
    v.push(
        make_profile(
            "Azureus 3.0.4.2",
            ClientFamily::Azureus,
            "3.0.4.2",
            "-AZ3042-".as_bytes(),
            RandomType::Alphanumeric,
            false,
            false,
            KeyFormat::Alphanumeric(8),
            false,
            "HTTP/1.1",
            "info_hash={infohash}&peer_id={peerid}&port={port}&azudp={port}&uploaded={uploaded}&downloaded={downloaded}&left={left}&corrupt=0&key={key}{event}&numwant={numwant}&no_peer_id=1&compact=1&supportcrypto=1&azver=3",
            "User-Agent: Azureus 3042;{}\r\nAccept-Encoding: gzip",
            true,
            50,
            true,
            true,
        ),
    );
    v.push(
        make_profile(
            "Azureus 3.0.3.4",
            ClientFamily::Azureus,
            "3.0.3.4",
            "-AZ3034-".as_bytes(),
            RandomType::Alphanumeric,
            false,
            false,
            KeyFormat::Alphanumeric(8),
            false,
            "HTTP/1.1",
            "info_hash={infohash}&peer_id={peerid}&port={port}&azudp={port}&uploaded={uploaded}&downloaded={downloaded}&left={left}&corrupt=0&key={key}{event}&numwant={numwant}&no_peer_id=1&compact=1&supportcrypto=1&azver=3",
            "User-Agent: Azureus 3034;{}\r\nAccept-Encoding: gzip",
            true,
            50,
            true,
            true,
        ),
    );
    v.push(
        make_profile(
            "Azureus 3.0.2.2",
            ClientFamily::Azureus,
            "3.0.2.2",
            "-AZ3022-".as_bytes(),
            RandomType::Alphanumeric,
            false,
            false,
            KeyFormat::Alphanumeric(8),
            false,
            "HTTP/1.1",
            "info_hash={infohash}&peer_id={peerid}&port={port}&azudp={port}&uploaded={uploaded}&downloaded={downloaded}&left={left}&corrupt=0&key={key}{event}&numwant={numwant}&no_peer_id=1&compact=1&supportcrypto=1&azver=3",
            "User-Agent: Azureus 3022;{}\r\nAccept-Encoding: gzip",
            true,
            50,
            true,
            true,
        ),
    );
    v.push(
        make_profile(
            "Azureus 2.5.0.4",
            ClientFamily::Azureus,
            "2.5.0.4",
            "-AZ2504-".as_bytes(),
            RandomType::Alphanumeric,
            false,
            false,
            KeyFormat::Alphanumeric(8),
            false,
            "HTTP/1.1",
            "info_hash={infohash}&peer_id={peerid}&port={port}&azudp={port}&uploaded={uploaded}&downloaded={downloaded}&left={left}&corrupt=0&key={key}{event}&numwant={numwant}&no_peer_id=1&compact=1&supportcrypto=1&azver=3",
            "User-Agent: Azureus 2504;{}\r\nAccept-Encoding: gzip",
            true,
            50,
            true,
            true,
        ),
    );
    assert(profiles_view(v@) =~= vuze_azureus_table());
    v
}

// ---------------------------------------------------------------------------
// The remaining clients (16 profiles)
// ---------------------------------------------------------------------------

/// The The remaining clients profiles.
pub open spec fn other_table() -> Seq<ProfileModel> {
    seq![
        profile_model(
            "BitTorrent 6.0.3(8642)"@,
            ClientFamily::BitTorrent,
            "6.0.3"@,
            "M6-0-3--".spec_bytes(),
            RandomType::Random,
            true,
            false,
            KeyFormat::Hex(8),
            false,
            "HTTP/1.1"@,
            "info_hash={infohash}&peer_id={peerid}&port={port}&uploaded={uploaded}&downloaded={downloaded}&left={left}&corrupt=0&key={key}{event}&numwant={numwant}&compact=1&no_peer_id=1"@,
            "User-Agent: BitTorrent/8642\r\nAccept-Encoding: gzip"@,
            false,
            200,
            true,
            true,
        ),
        profile_model(
            "Transmission 2.82(14160)"@,
            ClientFamily::Transmission,
            "2.82"@,
            "-TR2500-".spec_bytes(),
            RandomType::Alphanumeric,
            false,
            false,
            KeyFormat::Hex(8),
            false,
            "HTTP/1.1"@,
            "info_hash={infohash}&peer_id={peerid}&port={port}&uploaded={uploaded}&downloaded={downloaded}&left={left}&numwant={numwant}&key={key}&compact=1&supportcrypto=1{event}"@,
            "User-Agent: Transmission/2.82\r\nAccept-Encoding: gzip"@,
            false,
            80,
            true,
            false,
        ),
        profile_model(
            "Transmission 2.92(14714)"@,
            ClientFamily::Transmission,
            "2.92"@,
            "-TR2920-".spec_bytes(),
            RandomType::Alphanumeric,
            false,
            false,
            KeyFormat::Hex(8),
            false,
            "HTTP/1.1"@,
            "info_hash={infohash}&peer_id={peerid}&port={port}&uploaded={uploaded}&downloaded={downloaded}&left={left}&numwant={numwant}&key={key}&compact=1&supportcrypto=1{event}"@,
            "User-Agent: Transmission/2.92\r\nAccept-Encoding: gzip"@,
            false,
            80,
            true,
            false,
        ),
        profile_model(
            "Deluge 1.2.0"@,
            ClientFamily::Deluge,
            "1.2.0"@,
            "-DE1200-".spec_bytes(),
            RandomType::Alphanumeric,
            false,
            false,
            KeyFormat::Alphanumeric(8),
            false,
            "HTTP/1.0"@,
            "info_hash={infohash}&peer_id={peerid}&port={port}&uploaded={uploaded}&downloaded={downloaded}&left={left}&key={key}{event}&numwant={numwant}&compact=1&supportcrypto=1"@,
            "User-Agent: Deluge 1.2.0\r\nAccept-Encoding: gzip"@,
            false,
            200,
            true,
            false,
        ),
        profile_model(
            "Deluge 0.5.8.7"@,
            ClientFamily::Deluge,
            "0.5.8.7"@,
            "-DE0587-".spec_bytes(),
            RandomType::Alphanumeric,
            false,
            false,
            KeyFormat::Alphanumeric(8),
            true,
            "HTTP/1.0"@,
            "info_hash={infohash}&peer_id={peerid}&port={port}&uploaded={uploaded}&downloaded={downloaded}&left={left}&key={key}{event}&numwant={numwant}&compact=1"@,
            "User-Agent: Deluge 0.5.8.7\r\nAccept-Encoding: gzip"@,
            false,
            200,
            true,
            false,
        ),
        profile_model(
            "Deluge 0.5.8.6"@,
            ClientFamily::Deluge,
            "0.5.8.6"@,
            "-DE0586-".spec_bytes(),
            RandomType::Alphanumeric,
            false,
            false,
            KeyFormat::Alphanumeric(8),
            true,
            "HTTP/1.0"@,
            "info_hash={infohash}&peer_id={peerid}&port={port}&uploaded={uploaded}&downloaded={downloaded}&left={left}&key={key}{event}&numwant={numwant}&compact=1"@,
            "User-Agent: Deluge 0.5.8.6\r\nAccept-Encoding: gzip"@,
            false,
            200,
            true,
            false,
        ),
        profile_model(
            "BitLord 1.1"@,
            ClientFamily::BitLord,
            "1.1"@,
            seq![101u8, 120u8, 98u8, 99u8, 1u8, 1u8, 76u8, 79u8, 82u8, 68u8, 67u8, 122u8, 3u8, 146u8],
            RandomType::Random,
            true,
            true,
            KeyFormat::Numeric(4),
            false,
            "HTTP/1.0"@,
            "info_hash={infohash}&peer_id={peerid}&port={port}&natmapped=1&localip={localip}&uploaded={uploaded}&downloaded={downloaded}&left={left}&key={key}{event}&numwant={numwant}&compact=1"@,
            "User-Agent: BitLord 1.1\r\nAccept-Encoding: gzip"@,
            true,
            200,
            true,
            false,
        ),
        profile_model(
            "ABC 3.1"@,
            ClientFamily::ABC,
            "3.1"@,
            "A310--".spec_bytes(),
            RandomType::Alphanumeric,
            false,
            false,
            KeyFormat::Alphanumeric(6),
            false,
            "HTTP/1.1"@,
            "info_hash={infohash}&peer_id={peerid}&port={port}&uploaded={uploaded}&downloaded={downloaded}&left={left}&key={key}{event}&numwant={numwant}&compact=1&trackerid=48"@,
            "User-Agent: ABC/3.1\r\nAccept-Encoding: gzip"@,
            true,
            200,
            true,
            false,
        ),
        profile_model(
            "BTuga 2.1.8"@,
            ClientFamily::BTuga,
            "2.1.8"@,
            "R26---".spec_bytes(),
            RandomType::Alphanumeric,
            false,
            false,
            KeyFormat::Alphanumeric(6),
            false,
            "HTTP/1.1"@,
            "info_hash={infohash}&peer_id={peerid}&port={port}&uploaded={uploaded}&downloaded={downloaded}&left={left}&key={key}{event}&numwant={numwant}&compact=1"@,
            "User-Agent: BTuga/2.1.8\r\nAccept-Encoding: gzip"@,
            true,
            200,
            true,
            false,
        ),
        profile_model(
            "BitTornado 0.3.17"@,
            ClientFamily::BitTornado,
            "0.3.17"@,
            "T03H-----".spec_bytes(),
            RandomType::Alphanumeric,
            false,
            false,
            KeyFormat::Alphanumeric(6),
            false,
            "HTTP/1.1"@,
            "info_hash={infohash}&peer_id={peerid}&port={port}&uploaded={uploaded}&downloaded={downloaded}&left={left}&key={key}{event}&numwant={numwant}&compact=1"@,
            "User-Agent: BitTornado/T-0.3.17\r\nAccept-Encoding: gzip"@,
            true,
            200,
            true,
            false,
        ),
        profile_model(
            "Burst 3.1.0b"@,
            ClientFamily::Burst,
            "3.1.0b"@,
            "Mbrst1-1-3".spec_bytes(),
            RandomType::Hex,
            false,
            false,
            KeyFormat::Hex(8),
            false,
            "HTTP/1.0"@,
            "info_hash={infohash}&peer_id={peerid}&port={port}&uploaded={uploaded}&downloaded={downloaded}&left={left}&key={key}{event}&numwant={numwant}&compact=1"@,
            "User-Agent: Burst/3.1.0b\r\nAccept-Encoding: gzip"@,
            true,
            200,
            true,
            false,
        ),
        profile_model(
            "BitTyrant 1.1"@,
            ClientFamily::BitTyrant,
            "1.1"@,
            "AZ2500BT".spec_bytes(),
            RandomType::Alphanumeric,
            false,
            false,
            KeyFormat::Alphanumeric(8),
            false,
            "HTTP/1.1"@,
            "info_hash={infohash}&peer_id={peerid}&port={port}&azudp={port}&uploaded={uploaded}&downloaded={downloaded}&left={left}&corrupt=0&key={key}{event}&numwant={numwant}&no_peer_id=1&compact=1&supportcrypto=1"@,
            "User-Agent: BitTyrant/1.1\r\nAccept-Encoding: gzip"@,
            true,
            50,
            true,
            true,
        ),
        profile_model(
            "BitSpirit 3.6.0.200"@,
            ClientFamily::BitSpirit,
            "3.6.0.200"@,
            "-SP3602".spec_bytes(),
            RandomType::Random,
            true,
            false,
            KeyFormat::Hex(8),
            false,
            "HTTP/1.0"@,
            "info_hash={infohash}&peer_id={peerid}&port={port}&uploaded={uploaded}&downloaded={downloaded}&left={left}&key={key}{event}&numwant={numwant}&compact=1"@,
            "User-Agent: BitSpirit/3.6.0.200\r\nAccept-Encoding: gzip"@,
            false,
            200,
            true,
            false,
        ),
        profile_model(
            "BitSpirit 3.1.0.077"@,
            ClientFamily::BitSpirit,
            "3.1.0.077"@,
            seq![0u8, 3u8, 66u8, 83u8],
            RandomType::Random,
            true,
            false,
            KeyFormat::Numeric(3),
            false,
            "HTTP/1.0"@,
            "info_hash={infohash}&peer_id={peerid}&port={port}&uploaded={uploaded}&downloaded={downloaded}&left={left}&key={key}{event}&numwant={numwant}&compact=1"@,
            "User-Agent: BitSpirit/3.1.0.077\r\nAccept-Encoding: gzip"@,
            false,
            200,
            true,
            false,
        ),
        profile_model(
            "KTorrent 2.2.1"@,
            ClientFamily::KTorrent,
            "2.2.1"@,
            "-KT2210-".spec_bytes(),
            RandomType::Numeric,
            false,
            false,
            KeyFormat::Numeric(10),
            false,
            "HTTP/1.1"@,
            "info_hash={infohash}&peer_id={peerid}&port={port}&uploaded={uploaded}&downloaded={downloaded}&left={left}&key={key}{event}&numwant={numwant}&compact=1"@,
            "User-Agent: KTorrent/2.2.1\r\nAccept-Encoding: gzip"@,
            false,
            100,
            true,
            false,
        ),
        profile_model(
            "Gnome BT 0.0.28-1"@,
            ClientFamily::GnomeBT,
            "0.0.28-1"@,
            "M3-4-2--".spec_bytes(),
            RandomType::Alphanumeric,
            false,
            false,
            KeyFormat::Alphanumeric(8),
            false,
            "HTTP/1.1"@,
            "info_hash={infohash}&peer_id={peerid}&port={port}&uploaded={uploaded}&downloaded={downloaded}&left={left}&key={key}{event}&numwant={numwant}&compact=1"@,
            "User-Agent: GnomeBT/0.0.28-1\r\nAccept-Encoding: gzip"@,
            true,
            100,
            true,
            false,
        ),
    ]
}

fn other_profiles() -> (r: Vec<ClientProfile>)
    ensures
        profiles_view(r@) == other_table(),
{
    let mut v: Vec<ClientProfile> = Vec::new();
    v.push(
        make_profile(
            "BitTorrent 6.0.3(8642)",
            ClientFamily::BitTorrent,
            "6.0.3",
            "M6-0-3--".as_bytes(),
            RandomType::Random,
            true,
            false,
            KeyFormat::Hex(8),
            false,
            "HTTP/1.1",
            "info_hash={infohash}&peer_id={peerid}&port={port}&uploaded={uploaded}&downloaded={downloaded}&left={left}&corrupt=0&key={key}{event}&numwant={numwant}&compact=1&no_peer_id=1",
            "User-Agent: BitTorrent/8642\r\nAccept-Encoding: gzip",
            false,
            200,
            true,
            true,
        ),
    );
    v.push(
        make_profile(
            "Transmission 2.82(14160)",
            ClientFamily::Transmission,
            "2.82",
            "-TR2500-".as_bytes(),
            RandomType::Alphanumeric,
            false,
            false,
            KeyFormat::Hex(8),
            false,
            "HTTP/1.1",
            "info_hash={infohash}&peer_id={peerid}&port={port}&uploaded={uploaded}&downloaded={downloaded}&left={left}&numwant={numwant}&key={key}&compact=1&supportcrypto=1{event}",
            "User-Agent: Transmission/2.82\r\nAccept-Encoding: gzip",
            false,
            80,
            true,
            false,
        ),
    );
    v.push(
        make_profile(
            "Transmission 2.92(14714)",
            ClientFamily::Transmission,
            "2.92",
            "-TR2920-".as_bytes(),
            RandomType::Alphanumeric,
            false,
            false,
            KeyFormat::Hex(8),
            false,
            "HTTP/1.1",
            "info_hash={infohash}&peer_id={peerid}&port={port}&uploaded={uploaded}&downloaded={downloaded}&left={left}&numwant={numwant}&key={key}&compact=1&supportcrypto=1{event}",
            "User-Agent: Transmission/2.92\r\nAccept-Encoding: gzip",
            false,
            80,
            true,
            false,
        ),
    );
    v.push(
        make_profile(
            "Deluge 1.2.0",
            ClientFamily::Deluge,
            "1.2.0",
            "-DE1200-".as_bytes(),
            RandomType::Alphanumeric,
            false,
            false,
            KeyFormat::Alphanumeric(8),
            false,
            "HTTP/1.0",
            "info_hash={infohash}&peer_id={peerid}&port={port}&uploaded={uploaded}&downloaded={downloaded}&left={left}&key={key}{event}&numwant={numwant}&compact=1&supportcrypto=1",
            "User-Agent: Deluge 1.2.0\r\nAccept-Encoding: gzip",
            false,
            200,
            true,
            false,
        ),
    );
    v.push(
        make_profile(
            "Deluge 0.5.8.7",
            ClientFamily::Deluge,
            "0.5.8.7",
            "-DE0587-".as_bytes(),
            RandomType::Alphanumeric,
            false,
            false,
            KeyFormat::Alphanumeric(8),
            true,
            "HTTP/1.0",
            "info_hash={infohash}&peer_id={peerid}&port={port}&uploaded={uploaded}&downloaded={downloaded}&left={left}&key={key}{event}&numwant={numwant}&compact=1",
            "User-Agent: Deluge 0.5.8.7\r\nAccept-Encoding: gzip",
            false,
            200,
            true,
            false,
        ),
    );
    v.push(
        make_profile(
            "Deluge 0.5.8.6",
            ClientFamily::Deluge,
            "0.5.8.6",
            "-DE0586-".as_bytes(),
            RandomType::Alphanumeric,
            false,
            false,
            KeyFormat::Alphanumeric(8),
            true,
            "HTTP/1.0",
            "info_hash={infohash}&peer_id={peerid}&port={port}&uploaded={uploaded}&downloaded={downloaded}&left={left}&key={key}{event}&numwant={numwant}&compact=1",
            "User-Agent: Deluge 0.5.8.6\r\nAccept-Encoding: gzip",
            false,
            200,
            true,
            false,
        ),
    );
    let prefix6: Vec<u8> = vec![101u8, 120u8, 98u8, 99u8, 1u8, 1u8, 76u8, 79u8, 82u8, 68u8, 67u8, 122u8, 3u8, 146u8];
    assert(prefix6@ =~= seq![101u8, 120u8, 98u8, 99u8, 1u8, 1u8, 76u8, 79u8, 82u8, 68u8, 67u8, 122u8, 3u8, 146u8]);
    v.push(
        make_profile(
            "BitLord 1.1",
            ClientFamily::BitLord,
            "1.1",
            prefix6.as_slice(),
            RandomType::Random,
            true,
            true,
            KeyFormat::Numeric(4),
            false,
            "HTTP/1.0",
            "info_hash={infohash}&peer_id={peerid}&port={port}&natmapped=1&localip={localip}&uploaded={uploaded}&downloaded={downloaded}&left={left}&key={key}{event}&numwant={numwant}&compact=1",
            "User-Agent: BitLord 1.1\r\nAccept-Encoding: gzip",
            true,
            200,
            true,
            false,
        ),
    );
    v.push(
        make_profile(
            "ABC 3.1",
            ClientFamily::ABC,
            "3.1",
            "A310--".as_bytes(),
            RandomType::Alphanumeric,
            false,
            false,
            KeyFormat::Alphanumeric(6),
            false,
            "HTTP/1.1",
            "info_hash={infohash}&peer_id={peerid}&port={port}&uploaded={uploaded}&downloaded={downloaded}&left={left}&key={key}{event}&numwant={numwant}&compact=1&trackerid=48",
            "User-Agent: ABC/3.1\r\nAccept-Encoding: gzip",
            true,
            200,
            true,
            false,
        ),
    );
    v.push(
        make_profile(
            "BTuga 2.1.8",
            ClientFamily::BTuga,
            "2.1.8",
            "R26---".as_bytes(),
            RandomType::Alphanumeric,
            false,
            false,
            KeyFormat::Alphanumeric(6),
            false,
            "HTTP/1.1",
            "info_hash={infohash}&peer_id={peerid}&port={port}&uploaded={uploaded}&downloaded={downloaded}&left={left}&key={key}{event}&numwant={numwant}&compact=1",
            "User-Agent: BTuga/2.1.8\r\nAccept-Encoding: gzip",
            true,
            200,
            true,
            false,
        ),
    );
    v.push(
        make_profile(
            "BitTornado 0.3.17",
            ClientFamily::BitTornado,
            "0.3.17",
            "T03H-----".as_bytes(),
            RandomType::Alphanumeric,
            false,
            false,
            KeyFormat::Alphanumeric(6),
            false,
            "HTTP/1.1",
            "info_hash={infohash}&peer_id={peerid}&port={port}&uploaded={uploaded}&downloaded={downloaded}&left={left}&key={key}{event}&numwant={numwant}&compact=1",
            "User-Agent: BitTornado/T-0.3.17\r\nAccept-Encoding: gzip",
            true,
            200,
            true,
            false,
        ),
    );
    v.push(
        make_profile(
            "Burst 3.1.0b",
            ClientFamily::Burst,
            "3.1.0b",
            "Mbrst1-1-3".as_bytes(),
            RandomType::Hex,
            false,
            false,
            KeyFormat::Hex(8),
            false,
            "HTTP/1.0",
            "info_hash={infohash}&peer_id={peerid}&port={port}&uploaded={uploaded}&downloaded={downloaded}&left={left}&key={key}{event}&numwant={numwant}&compact=1",
            "User-Agent: Burst/3.1.0b\r\nAccept-Encoding: gzip",
            true,
            200,
            true,
            false,
        ),
    );
    v.push(
        make_profile(
            "BitTyrant 1.1",
            ClientFamily::BitTyrant,
            "1.1",
            "AZ2500BT".as_bytes(),
            RandomType::Alphanumeric,
            false,
            false,
            KeyFormat::Alphanumeric(8),
            false,
            "HTTP/1.1",
            "info_hash={infohash}&peer_id={peerid}&port={port}&azudp={port}&uploaded={uploaded}&downloaded={downloaded}&left={left}&corrupt=0&key={key}{event}&numwant={numwant}&no_peer_id=1&compact=1&supportcrypto=1",
            "User-Agent: BitTyrant/1.1\r\nAccept-Encoding: gzip",
            true,
            50,
            true,
            true,
        ),
    );
    v.push(
        make_profile(
            "BitSpirit 3.6.0.200",
            ClientFamily::BitSpirit,
            "3.6.0.200",
            "-SP3602".as_bytes(),
            RandomType::Random,
            true,
            false,
            KeyFormat::Hex(8),
            false,
            "HTTP/1.0",
            "info_hash={infohash}&peer_id={peerid}&port={port}&uploaded={uploaded}&downloaded={downloaded}&left={left}&key={key}{event}&numwant={numwant}&compact=1",
            "User-Agent: BitSpirit/3.6.0.200\r\nAccept-Encoding: gzip",
            false,
            200,
            true,
            false,
        ),
    );
    let prefix13: Vec<u8> = vec![0u8, 3u8, 66u8, 83u8];
    assert(prefix13@ =~= seq![0u8, 3u8, 66u8, 83u8]);
    v.push(
        make_profile(
            "BitSpirit 3.1.0.077",
            ClientFamily::BitSpirit,
            "3.1.0.077",
            prefix13.as_slice(),
            RandomType::Random,
            true,
            false,
            KeyFormat::Numeric(3),
            false,
            "HTTP/1.0",
            "info_hash={infohash}&peer_id={peerid}&port={port}&uploaded={uploaded}&downloaded={downloaded}&left={left}&key={key}{event}&numwant={numwant}&compact=1",
            "User-Agent: BitSpirit/3.1.0.077\r\nAccept-Encoding: gzip",
            false,
            200,
            true,
            false,
        ),
    );
    v.push(
        make_profile(
            "KTorrent 2.2.1",
            ClientFamily::KTorrent,
            "2.2.1",
            "-KT2210-".as_bytes(),
            RandomType::Numeric,
            false,
            false,
            KeyFormat::Numeric(10),
            false,
            "HTTP/1.1",
            "info_hash={infohash}&peer_id={peerid}&port={port}&uploaded={uploaded}&downloaded={downloaded}&left={left}&key={key}{event}&numwant={numwant}&compact=1",
            "User-Agent: KTorrent/2.2.1\r\nAccept-Encoding: gzip",
            false,
            100,
            true,
            false,
        ),
    );
    v.push(
        make_profile(
            "Gnome BT 0.0.28-1",
            ClientFamily::GnomeBT,
            "0.0.28-1",
            "M3-4-2--".as_bytes(),
            RandomType::Alphanumeric,
            false,
            false,
            KeyFormat::Alphanumeric(8),
            false,
            "HTTP/1.1",
            "info_hash={infohash}&peer_id={peerid}&port={port}&uploaded={uploaded}&downloaded={downloaded}&left={left}&key={key}{event}&numwant={numwant}&compact=1",
            "User-Agent: GnomeBT/0.0.28-1\r\nAccept-Encoding: gzip",
            true,
            100,
            true,
            false,
        ),
    );
    assert(profiles_view(v@) =~= other_table());
    v
}

/// All profiles, in registry order.
pub open spec fn profile_table() -> Seq<ProfileModel> {
    utorrent_table() + bitcomet_table() + vuze_azureus_table() + other_table()
}

/// Returns all registered client profiles.
pub fn all_profiles() -> (r: Vec<ClientProfile>)
    ensures
        profiles_view(r@) == profile_table(),
{
    let mut profiles = utorrent_profiles();
    let mut b = bitcomet_profiles();
    let mut c = vuze_azureus_profiles();
    let mut d = other_profiles();
    let ghost (v0, v1, v2, v3) = (profiles@, b@, c@, d@);
    profiles.append(&mut b);
    profiles.append(&mut c);
    profiles.append(&mut d);
    assert(profiles@ =~= v0 + v1 + v2 + v3);
    assert(profiles_view(profiles@) =~= profile_table());
    profiles
}

/// The first profile of `table` from position `i` on whose name matches
/// `name` ignoring ASCII case.
pub open spec fn find_profile(table: Seq<ProfileModel>, name: Seq<u8>, i: int) -> Option<ProfileModel>
    decreases table.len() - i,
{
    if i < 0 || i >= table.len() {
        None
    } else if eq_ignore_ascii_case(encode_utf8(table[i].name), name) {
        Some(table[i])
    } else {
        find_profile(table, name, i + 1)
    }
}

/// Looks up a client profile by name (ASCII case-insensitive): the first
/// registered profile whose name matches.
pub fn get_profile(name: &str) -> (r: Option<ClientProfile>)
    ensures
        match find_profile(profile_table(), name.spec_bytes(), 0) {
            Some(m) => r matches Some(p) && p@ == m,
            None => r is None,
        },
{
    let mut all = all_profiles();
    let ghost table = profiles_view(all@);
    let mut i: usize = 0;
    while i < all.len()
        invariant
            i <= all@.len(),
            table == profiles_view(all@),
            table == profile_table(),
            find_profile(table, name.spec_bytes(), 0) == find_profile(table, name.spec_bytes(), i as int),
        decreases all.len() - i,
    {
        assert(table[i as int] == all@[i as int]@);
        if bytes_eq_ignore_ascii_case(all[i].name.as_str().as_bytes(), name.as_bytes()) {
            let p = all.remove(i);
            return Some(p);
        }
        i += 1;
    }
    None
}

/// The profile named `name` (ASCII case-insensitive), or the first
/// registered profile when no profile has that name.
pub fn profile_or_first(name: &str) -> (r: ClientProfile)
    ensures
        r@ == match find_profile(profile_table(), name.spec_bytes(), 0) {
            Some(m) => m,
            None => profile_table()[0],
        },
{
    match get_profile(name) {
        Some(p) => p,
        None => {
            let mut all = all_profiles();
            assert(profile_table().len() > 0);
            assert(profiles_view(all@)[0] == all@[0]@);
            all.swap_remove(0)
        },
    }
}

/// Profile lookup ignores ASCII case: two names that are equal ignoring
/// ASCII case find the same profile (or none, both).
pub proof fn law_lookup_ignores_case(table: Seq<ProfileModel>, a: Seq<u8>, b: Seq<u8>, i: int)
    requires
        eq_ignore_ascii_case(a, b),
    ensures
        find_profile(table, a, i) == find_profile(table, b, i),
    decreases table.len() - i,
{
    if 0 <= i < table.len() {
        let n = encode_utf8(table[i].name);
        assert(eq_ignore_ascii_case(n, a) == eq_ignore_ascii_case(n, b)) by {
            if eq_ignore_ascii_case(n, a) {
                assert forall|k: int| 0 <= k < n.len() implies ascii_lower(#[trigger] n[k])
                    == ascii_lower(b[k]) by {
                    assert(ascii_lower(n[k]) == ascii_lower(a[k]));
                    assert(ascii_lower(a[k]) == ascii_lower(b[k]));
                }
            }
            if eq_ignore_ascii_case(n, b) {
                assert forall|k: int| 0 <= k < n.len() implies ascii_lower(#[trigger] n[k])
                    == ascii_lower(a[k]) by {
                    assert(ascii_lower(n[k]) == ascii_lower(b[k]));
                    assert(ascii_lower(a[k]) == ascii_lower(b[k]));
                }
            }
        }
        law_lookup_ignores_case(table, a, b, i + 1);
    }
}

} // verus!
