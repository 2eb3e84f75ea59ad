//! Laws of the profile registry: the table's invariants, and that each
//! registered name finds its own profile.
use vstd::prelude::*;
use vstd::utf8::{encode_utf8, is_ascii_chars, is_ascii_chars_encode_utf8};

use super::profiles::{
    bitcomet_table, find_profile, other_table, profile_table, utorrent_table, vuze_azureus_table,
};
use super::{ClientFamily, ProfileModel};
use crate::strings::{contains, occurs_at};
use crate::text::{ascii_lower, eq_ignore_ascii_case};

verus! {

/// The registry holds 41 profiles; each has a name and a version, asks for
/// some peers, and speaks HTTP/1.0 or HTTP/1.1.
pub proof fn law_profile_table()
    ensures
        profile_table().len() == 41,
        forall|i: int|
            0 <= i < profile_table().len() ==> (#[trigger] profile_table()[i]).default_numwant > 0
                && (profile_table()[i].http_protocol == "HTTP/1.0"@ || profile_table()[i].http_protocol
                == "HTTP/1.1"@) && profile_table()[i].name.len() > 0
                && profile_table()[i].version.len() > 0,
{
    let t = profile_table();
    assert forall|i: int| 0 <= i < t.len() implies (#[trigger] t[i]).default_numwant > 0 && (
    t[i].http_protocol == "HTTP/1.0"@ || t[i].http_protocol == "HTTP/1.1"@) && t[i].name.len() > 0
        && t[i].version.len() > 0 by {
        reveal_strlit("0.0.28-1");
        reveal_strlit("0.3.17");
        reveal_strlit("0.5.8.6");
        reveal_strlit("0.5.8.7");
        reveal_strlit("0.92");
        reveal_strlit("0.93");
        reveal_strlit("0.96");
        reveal_strlit("0.98");
        reveal_strlit("1.03");
        reveal_strlit("1.1");
        reveal_strlit("1.2.0");
        reveal_strlit("1.20");
        reveal_strlit("1.6");
        reveal_strlit("1.6.1");
        reveal_strlit("1.7.5");
        reveal_strlit("1.7.6");
        reveal_strlit("1.7.7");
        reveal_strlit("1.8.0");
        reveal_strlit("1.8.1");
        reveal_strlit("1.8.5");
        reveal_strlit("2.0.1");
        reveal_strlit("2.1.8");
        reveal_strlit("2.2.1");
        reveal_strlit("2.5.0.4");
        reveal_strlit("2.82");
        reveal_strlit("2.92");
        reveal_strlit("3.0.2.2");
        reveal_strlit("3.0.3.4");
        reveal_strlit("3.0.4.2");
        reveal_strlit("3.0.5.0");
        reveal_strlit("3.1");
        reveal_strlit("3.1.0.077");
        reveal_strlit("3.1.0b");
        reveal_strlit("3.1.1.0");
        reveal_strlit("3.2.0");
        reveal_strlit("3.3.0");
        reveal_strlit("3.3.2");
        reveal_strlit("3.6.0.200");
        reveal_strlit("4.2.0.8");
        reveal_strlit("6.0.3");
        reveal_strlit("ABC 3.1");
        reveal_strlit("Azureus 2.5.0.4");
        reveal_strlit("Azureus 3.0.2.2");
        reveal_strlit("Azureus 3.0.3.4");
        reveal_strlit("Azureus 3.0.4.2");
        reveal_strlit("Azureus 3.0.5.0");
        reveal_strlit("Azureus 3.1.1.0");
        reveal_strlit("BTuga 2.1.8");
        reveal_strlit("BitComet 0.92");
        reveal_strlit("BitComet 0.93");
        reveal_strlit("BitComet 0.96");
        reveal_strlit("BitComet 0.98");
        reveal_strlit("BitComet 1.03");
        reveal_strlit("BitComet 1.20");
        reveal_strlit("BitLord 1.1");
        reveal_strlit("BitSpirit 3.1.0.077");
        reveal_strlit("BitSpirit 3.6.0.200");
        reveal_strlit("BitTornado 0.3.17");
        reveal_strlit("BitTorrent 6.0.3(8642)");
        reveal_strlit("BitTyrant 1.1");
        reveal_strlit("Burst 3.1.0b");
        reveal_strlit("Deluge 0.5.8.6");
        reveal_strlit("Deluge 0.5.8.7");
        reveal_strlit("Deluge 1.2.0");
        reveal_strlit("Gnome BT 0.0.28-1");
        reveal_strlit("KTorrent 2.2.1");
        reveal_strlit("Transmission 2.82(14160)");
        reveal_strlit("Transmission 2.92(14714)");
        reveal_strlit("Vuze 4.2.0.8");
        reveal_strlit("uTorrent 1.6");
        reveal_strlit("uTorrent 1.6.1");
        reveal_strlit("uTorrent 1.7.5");
        reveal_strlit("uTorrent 1.7.6");
        reveal_strlit("uTorrent 1.7.7");
        reveal_strlit("uTorrent 1.8.0");
        reveal_strlit("uTorrent 1.8.1-beta(11903)");
        reveal_strlit("uTorrent 1.8.5(17414)");
        reveal_strlit("uTorrent 2.0.1(19078)");
        reveal_strlit("uTorrent 3.2.0");
        reveal_strlit("uTorrent 3.3.0");
        reveal_strlit("uTorrent 3.3.2");

        let (u, b, v, o) = (utorrent_table(), bitcomet_table(), vuze_azureus_table(), other_table());
        if i < u.len() {
            assert(t[i] == u[i]);
        } else if i < u.len() + b.len() {
            assert(t[i] == b[i - u.len()]);
        } else if i < u.len() + b.len() + v.len() {
            assert(t[i] == v[i - u.len() - b.len()]);
        } else {
            assert(t[i] == o[i - u.len() - b.len() - v.len()]);
        }
    }
}

/// The names of the uTorrent profiles.
spec fn utorrent_names() -> Seq<Seq<char>> {
    seq![
        "uTorrent 3.3.2"@,
        "uTorrent 3.3.0"@,
        "uTorrent 3.2.0"@,
        "uTorrent 2.0.1(19078)"@,
        "uTorrent 1.8.5(17414)"@,
        "uTorrent 1.8.1-beta(11903)"@,
        "uTorrent 1.8.0"@,
        "uTorrent 1.7.7"@,
        "uTorrent 1.7.6"@,
        "uTorrent 1.7.5"@,
        "uTorrent 1.6.1"@,
        "uTorrent 1.6"@,
    ]
}

/// The names of the BitComet profiles.
spec fn bitcomet_names() -> Seq<Seq<char>> {
    seq![
        "BitComet 1.20"@,
        "BitComet 1.03"@,
        "BitComet 0.98"@,
        "BitComet 0.96"@,
        "BitComet 0.93"@,
        "BitComet 0.92"@,
    ]
}

/// The names of the Vuze and Azureus profiles.
spec fn vuze_azureus_names() -> Seq<Seq<char>> {
    seq![
        "Vuze 4.2.0.8"@,
        "Azureus 3.1.1.0"@,
        "Azureus 3.0.5.0"@,
        "Azureus 3.0.4.2"@,
        "Azureus 3.0.3.4"@,
        "Azureus 3.0.2.2"@,
        "Azureus 2.5.0.4"@,
    ]
}

/// The names of the profiles of the other families.
spec fn other_names() -> Seq<Seq<char>> {
    seq![
        "BitTorrent 6.0.3(8642)"@,
        "Transmission 2.82(14160)"@,
        "Transmission 2.92(14714)"@,
        "Deluge 1.2.0"@,
        "Deluge 0.5.8.7"@,
        "Deluge 0.5.8.6"@,
        "BitLord 1.1"@,
        "ABC 3.1"@,
        "BTuga 2.1.8"@,
        "BitTornado 0.3.17"@,
        "Burst 3.1.0b"@,
        "BitTyrant 1.1"@,
        "BitSpirit 3.6.0.200"@,
        "BitSpirit 3.1.0.077"@,
        "KTorrent 2.2.1"@,
        "Gnome BT 0.0.28-1"@,
    ]
}

/// The names of the registered profiles, in registry order.
spec fn table_names() -> Seq<Seq<char>> {
    utorrent_names() + bitcomet_names() + vuze_azureus_names() + other_names()
}

/// The lowered byte at position `p` of an ASCII name; zero past its end.
spec fn lowered_at(s: Seq<char>, p: int) -> u8 {
    if 0 <= p < s.len() {
        ascii_lower(s[p] as u8)
    } else {
        0
    }
}

/// A few lowered positions of a name, with its length: enough to tell the
/// registered names apart.
spec fn name_key(s: Seq<char>) -> (nat, u8, u8, u8, u8, u8) {
    (s.len(), lowered_at(s, 1), lowered_at(s, 11), lowered_at(s, 12), lowered_at(s, 13), lowered_at(s, 15))
}

/// The registered names are ASCII, and their keys are pairwise distinct.
proof fn lemma_names_keys()
    ensures
        table_names().len() == 41,
        forall|i: int| 0 <= i < 41 ==> is_ascii_chars(#[trigger] table_names()[i]),
        forall|i: int, j: int|
            0 <= i < j < 41 ==> name_key(#[trigger] table_names()[i]) != name_key(
                #[trigger] table_names()[j],
            ),
{
    reveal_strlit("ABC 3.1");
    reveal_strlit("Azureus 2.5.0.4");
    reveal_strlit("Azureus 3.0.2.2");
    reveal_strlit("Azureus 3.0.3.4");
    reveal_strlit("Azureus 3.0.4.2");
    reveal_strlit("Azureus 3.0.5.0");
    reveal_strlit("Azureus 3.1.1.0");
    reveal_strlit("BTuga 2.1.8");
    reveal_strlit("BitComet 0.92");
    reveal_strlit("BitComet 0.93");
    reveal_strlit("BitComet 0.96");
    reveal_strlit("BitComet 0.98");
    reveal_strlit("BitComet 1.03");
    reveal_strlit("BitComet 1.20");
    reveal_strlit("BitLord 1.1");
    reveal_strlit("BitSpirit 3.1.0.077");
    reveal_strlit("BitSpirit 3.6.0.200");
    reveal_strlit("BitTornado 0.3.17");
    reveal_strlit("BitTorrent 6.0.3(8642)");
    reveal_strlit("BitTyrant 1.1");
    reveal_strlit("Burst 3.1.0b");
    reveal_strlit("Deluge 0.5.8.6");
    reveal_strlit("Deluge 0.5.8.7");
    reveal_strlit("Deluge 1.2.0");
    reveal_strlit("Gnome BT 0.0.28-1");
    reveal_strlit("KTorrent 2.2.1");
    reveal_strlit("Transmission 2.82(14160)");
    reveal_strlit("Transmission 2.92(14714)");
    reveal_strlit("Vuze 4.2.0.8");
    reveal_strlit("uTorrent 1.6");
    reveal_strlit("uTorrent 1.6.1");
    reveal_strlit("uTorrent 1.7.5");
    reveal_strlit("uTorrent 1.7.6");
    reveal_strlit("uTorrent 1.7.7");
    reveal_strlit("uTorrent 1.8.0");
    reveal_strlit("uTorrent 1.8.1-beta(11903)");
    reveal_strlit("uTorrent 1.8.5(17414)");
    reveal_strlit("uTorrent 2.0.1(19078)");
    reveal_strlit("uTorrent 3.2.0");
    reveal_strlit("uTorrent 3.3.0");
    reveal_strlit("uTorrent 3.3.2");
}


/// The name of a profile.
spec fn name_of(p: ProfileModel) -> Seq<char> {
    p.name
}

/// The uTorrent table lists the uTorrent names.
proof fn lemma_utorrent_names()
    ensures
        utorrent_table().map_values(|p: ProfileModel| name_of(p)) == utorrent_names(),
{
    assert(utorrent_table().map_values(|p: ProfileModel| name_of(p)) =~= utorrent_names());
}

/// The BitComet table lists the BitComet names.
proof fn lemma_bitcomet_names()
    ensures
        bitcomet_table().map_values(|p: ProfileModel| name_of(p)) == bitcomet_names(),
{
    assert(bitcomet_table().map_values(|p: ProfileModel| name_of(p)) =~= bitcomet_names());
}

/// The Vuze and Azureus table lists their names.
proof fn lemma_vuze_azureus_names()
    ensures
        vuze_azureus_table().map_values(|p: ProfileModel| name_of(p)) == vuze_azureus_names(),
{
    assert(vuze_azureus_table().map_values(|p: ProfileModel| name_of(p)) =~= vuze_azureus_names());
}

/// The table of the other families lists their names.
proof fn lemma_other_names()
    ensures
        other_table().map_values(|p: ProfileModel| name_of(p)) == other_names(),
{
    assert(other_table().map_values(|p: ProfileModel| name_of(p)) =~= other_names());
}

/// Naming each item of a concatenation names each part.
proof fn lemma_names_concat(a: Seq<ProfileModel>, b: Seq<ProfileModel>)
    ensures
        (a + b).map_values(|p: ProfileModel| name_of(p)) == a.map_values(|p: ProfileModel| name_of(p))
            + b.map_values(|p: ProfileModel| name_of(p)),
{
    assert((a + b).map_values(|p: ProfileModel| name_of(p)) =~= a.map_values(|p: ProfileModel| name_of(p))
        + b.map_values(|p: ProfileModel| name_of(p)));
}

/// The registry's names, position by position.
proof fn lemma_table_names()
    ensures
        profile_table().len() == 41,
        forall|i: int| 0 <= i < 41 ==> (#[trigger] profile_table()[i]).name == table_names()[i],
{
    let (u, b, v, o) = (utorrent_table(), bitcomet_table(), vuze_azureus_table(), other_table());
    lemma_utorrent_names();
    lemma_bitcomet_names();
    lemma_vuze_azureus_names();
    lemma_other_names();
    lemma_names_concat(u, b);
    lemma_names_concat(u + b, v);
    lemma_names_concat(u + b + v, o);
    let names = profile_table().map_values(|p: ProfileModel| name_of(p));
    assert(names == table_names());
    assert forall|i: int| 0 <= i < 41 implies (#[trigger] profile_table()[i]).name == table_names()[i] by {
        assert(names[i] == name_of(profile_table()[i]));
    }
}

/// Two ASCII names that are equal ignoring case have the same key.
proof fn lemma_equal_names_same_key(a: Seq<char>, b: Seq<char>)
    requires
        is_ascii_chars(a),
        is_ascii_chars(b),
        eq_ignore_ascii_case(encode_utf8(a), encode_utf8(b)),
    ensures
        name_key(a) == name_key(b),
{
    is_ascii_chars_encode_utf8(a);
    is_ascii_chars_encode_utf8(b);
    let (ea, eb) = (encode_utf8(a), encode_utf8(b));
    assert forall|p: int| 0 <= p < a.len() implies #[trigger] lowered_at(a, p) == lowered_at(b, p) by {
        assert(ascii_lower(ea[p]) == ascii_lower(eb[p]));
    }
    assert(lowered_at(a, 1) == lowered_at(b, 1));
    assert(lowered_at(a, 11) == lowered_at(b, 11));
    assert(lowered_at(a, 12) == lowered_at(b, 12));
    assert(lowered_at(a, 13) == lowered_at(b, 13));
    assert(lowered_at(a, 15) == lowered_at(b, 15));
}

/// No two registered profiles have names that are equal ignoring ASCII case.
pub proof fn law_profile_names_distinct()
    ensures
        forall|i: int, j: int|
            0 <= i < j < profile_table().len() ==> !eq_ignore_ascii_case(
                encode_utf8(#[trigger] profile_table()[i].name),
                encode_utf8(#[trigger] profile_table()[j].name),
            ),
{
    let t = profile_table();
    lemma_table_names();
    lemma_names_keys();
    assert forall|i: int, j: int| 0 <= i < j < t.len() implies !eq_ignore_ascii_case(
        encode_utf8(#[trigger] t[i].name),
        encode_utf8(#[trigger] t[j].name),
    ) by {
        assert(t[i].name == table_names()[i] && t[j].name == table_names()[j]);
        if eq_ignore_ascii_case(encode_utf8(t[i].name), encode_utf8(t[j].name)) {
            lemma_equal_names_same_key(t[i].name, t[j].name);
        }
    }
}

/// A lookup from position `k` that passes no earlier match reaches the
/// profile at `i`.
proof fn lemma_find_reaches(table: Seq<ProfileModel>, name: Seq<u8>, k: int, i: int)
    requires
        0 <= k <= i < table.len(),
        eq_ignore_ascii_case(encode_utf8(table[i].name), name),
        forall|m: int| k <= m < i ==> !eq_ignore_ascii_case(encode_utf8(#[trigger] table[m].name), name),
    ensures
        find_profile(table, name, k) == Some(table[i]),
    decreases i - k,
{
    if k < i {
        lemma_find_reaches(table, name, k + 1, i);
    }
}

/// Looking up the name of any registered profile finds that profile.
pub proof fn law_get_profile_finds_each_name()
    ensures
        forall|i: int|
            0 <= i < profile_table().len() ==> find_profile(
                profile_table(),
                encode_utf8(#[trigger] profile_table()[i].name),
                0,
            ) == Some(profile_table()[i]),
{
    let t = profile_table();
    law_profile_names_distinct();
    assert forall|i: int| 0 <= i < t.len() implies find_profile(t, encode_utf8(#[trigger] t[i].name), 0)
        == Some(t[i]) by {
        let name = encode_utf8(t[i].name);
        assert forall|m: int| 0 <= m < i implies !eq_ignore_ascii_case(
            encode_utf8(#[trigger] t[m].name),
            name,
        ) by {
            assert(!eq_ignore_ascii_case(encode_utf8(t[m].name), encode_utf8(t[i].name)));
        }
        lemma_find_reaches(t, name, 0, i);
    }
}

/// Some registered profile belongs to family `f`.
pub open spec fn family_registered(f: ClientFamily) -> bool {
    exists|i: int| 0 <= i < profile_table().len() && (#[trigger] profile_table()[i]).family == f
}

/// Every client family has a registered profile.
pub proof fn law_every_family_registered()
    ensures
        forall|f: ClientFamily| #[trigger] family_registered(f),
{
    let t = profile_table();
    lemma_table_names();
    let (u, b, v, o) = (utorrent_table(), bitcomet_table(), vuze_azureus_table(), other_table());
    assert forall|f: ClientFamily| #[trigger] family_registered(f) by {
        let i: int = match f {
            ClientFamily::UTorrent => 0,
            ClientFamily::BitComet => 12,
            ClientFamily::Vuze => 18,
            ClientFamily::Azureus => 19,
            ClientFamily::BitTorrent => 25,
            ClientFamily::Transmission => 26,
            ClientFamily::Deluge => 28,
            ClientFamily::BitLord => 31,
            ClientFamily::ABC => 32,
            ClientFamily::BTuga => 33,
            ClientFamily::BitTornado => 34,
            ClientFamily::Burst => 35,
            ClientFamily::BitTyrant => 36,
            ClientFamily::BitSpirit => 37,
            ClientFamily::KTorrent => 39,
            ClientFamily::GnomeBT => 40,
        };
        if i < u.len() {
            assert(t[i] == u[i]);
        } else if i < u.len() + b.len() {
            assert(t[i] == b[i - u.len()]);
        } else if i < u.len() + b.len() + v.len() {
            assert(t[i] == v[i - u.len() - b.len()]);
        } else {
            assert(t[i] == o[i - u.len() - b.len() - v.len()]);
        }
        assert(t[i].family == f);
    }
}

/// `s` carries every placeholder that an announce query fills in.
pub open spec fn carries_announce_placeholders(s: Seq<char>) -> bool {
    &&& contains(s, "{infohash}"@)
    &&& contains(s, "{peerid}"@)
    &&& contains(s, "{port}"@)
    &&& contains(s, "{uploaded}"@)
    &&& contains(s, "{downloaded}"@)
    &&& contains(s, "{left}"@)
    &&& contains(s, "{key}"@)
    &&& contains(s, "{event}"@)
    &&& contains(s, "{numwant}"@)
}

/// `p` occurs in `s` at `k`, as its characters show.
proof fn lemma_contains_at(s: Seq<char>, p: Seq<char>, k: int)
    requires
        0 <= k,
        k + p.len() <= s.len(),
        s.subrange(k, k + p.len()) =~= p,
    ensures
        contains(s, p),
{
    assert(occurs_at(s, p, k));
}

/// A query template that opens with the info hash and peer ID fields, and
/// holds the other placeholders at the given positions, carries them all.
proof fn lemma_template_placeholders(
    s: Seq<char>,
    port: int,
    uploaded: int,
    downloaded: int,
    left: int,
    key: int,
    event: int,
    numwant: int,
)
    requires
        "info_hash={infohash}&peer_id={peerid}"@.is_prefix_of(s),
        0 <= port && port + 6 <= s.len() && s.subrange(port, port + 6) =~= "{port}"@,
        0 <= uploaded && uploaded + 10 <= s.len() && s.subrange(uploaded, uploaded + 10) =~= "{uploaded}"@,
        0 <= downloaded && downloaded + 12 <= s.len() && s.subrange(downloaded, downloaded + 12)
            =~= "{downloaded}"@,
        0 <= left && left + 6 <= s.len() && s.subrange(left, left + 6) =~= "{left}"@,
        0 <= key && key + 5 <= s.len() && s.subrange(key, key + 5) =~= "{key}"@,
        0 <= event && event + 7 <= s.len() && s.subrange(event, event + 7) =~= "{event}"@,
        0 <= numwant && numwant + 9 <= s.len() && s.subrange(numwant, numwant + 9) =~= "{numwant}"@,
    ensures
        carries_announce_placeholders(s),
{
    reveal_strlit("info_hash={infohash}&peer_id={peerid}");
    reveal_strlit("{infohash}");
    reveal_strlit("{peerid}");
    let fields = "info_hash={infohash}&peer_id={peerid}"@;
    assert(s.subrange(10, 20) =~= fields.subrange(10, 20));
    assert(s.subrange(29, 37) =~= fields.subrange(29, 37));
    lemma_contains_at(s, "{infohash}"@, 10);
    lemma_contains_at(s, "{peerid}"@, 29);
    lemma_contains_at(s, "{port}"@, port);
    lemma_contains_at(s, "{uploaded}"@, uploaded);
    lemma_contains_at(s, "{downloaded}"@, downloaded);
    lemma_contains_at(s, "{left}"@, left);
    lemma_contains_at(s, "{key}"@, key);
    lemma_contains_at(s, "{event}"@, event);
    lemma_contains_at(s, "{numwant}"@, numwant);
}

/// Each query template of the registry carries every announce placeholder.
proof fn lemma_query_templates()
    ensures
        carries_announce_placeholders("info_hash={infohash}&peer_id={peerid}&port={port}&azudp={port}&uploaded={uploaded}&downloaded={downloaded}&left={left}&corrupt=0&key={key}{event}&numwant={numwant}&no_peer_id=1&compact=1&supportcrypto=1"@),
        carries_announce_placeholders("info_hash={infohash}&peer_id={peerid}&port={port}&azudp={port}&uploaded={uploaded}&downloaded={downloaded}&left={left}&corrupt=0&key={key}{event}&numwant={numwant}&no_peer_id=1&compact=1&supportcrypto=1&azver=3"@),
        carries_announce_placeholders("info_hash={infohash}&peer_id={peerid}&port={port}&natmapped=1&localip={localip}&port_type=wan&uploaded={uploaded}&downloaded={downloaded}&left={left}&key={key}{event}&numwant={numwant}&compact=1&no_peer_id=1"@),
        carries_announce_placeholders("info_hash={infohash}&peer_id={peerid}&port={port}&natmapped=1&localip={localip}&uploaded={uploaded}&downloaded={downloaded}&left={left}&key={key}{event}&numwant={numwant}&compact=1"@),
        carries_announce_placeholders("info_hash={infohash}&peer_id={peerid}&port={port}&uploaded={uploaded}&downloaded={downloaded}&left={left}&corrupt=0&key={key}{event}&numwant={numwant}&compact=1&no_peer_id=1"@),
        carries_announce_placeholders("info_hash={infohash}&peer_id={peerid}&port={port}&uploaded={uploaded}&downloaded={downloaded}&left={left}&key={key}{event}&numwant={numwant}&compact=1"@),
        carries_announce_placeholders("info_hash={infohash}&peer_id={peerid}&port={port}&uploaded={uploaded}&downloaded={downloaded}&left={left}&key={key}{event}&numwant={numwant}&compact=1&supportcrypto=1"@),
        carries_announce_placeholders("info_hash={infohash}&peer_id={peerid}&port={port}&uploaded={uploaded}&downloaded={downloaded}&left={left}&key={key}{event}&numwant={numwant}&compact=1&trackerid=48"@),
        carries_announce_placeholders("info_hash={infohash}&peer_id={peerid}&port={port}&uploaded={uploaded}&downloaded={downloaded}&left={left}&numwant={numwant}&key={key}&compact=1&supportcrypto=1{event}"@),
{
    reveal_strlit("info_hash={infohash}&peer_id={peerid}");
    reveal_strlit("{port}");
    reveal_strlit("{uploaded}");
    reveal_strlit("{downloaded}");
    reveal_strlit("{left}");
    reveal_strlit("{key}");
    reveal_strlit("{event}");
    reveal_strlit("{numwant}");
    assert(carries_announce_placeholders("info_hash={infohash}&peer_id={peerid}&port={port}&azudp={port}&uploaded={uploaded}&downloaded={downloaded}&left={left}&corrupt=0&key={key}{event}&numwant={numwant}&no_peer_id=1&compact=1&supportcrypto=1"@)) by {
        reveal_strlit("info_hash={infohash}&peer_id={peerid}&port={port}&azudp={port}&uploaded={uploaded}&downloaded={downloaded}&left={left}&corrupt=0&key={key}{event}&numwant={numwant}&no_peer_id=1&compact=1&supportcrypto=1");
        lemma_template_placeholders(
            "info_hash={infohash}&peer_id={peerid}&port={port}&azudp={port}&uploaded={uploaded}&downloaded={downloaded}&left={left}&corrupt=0&key={key}{event}&numwant={numwant}&no_peer_id=1&compact=1&supportcrypto=1"@,
            43, 72, 94, 112, 133, 138, 154,
        );
    }
    assert(carries_announce_placeholders("info_hash={infohash}&peer_id={peerid}&port={port}&azudp={port}&uploaded={uploaded}&downloaded={downloaded}&left={left}&corrupt=0&key={key}{event}&numwant={numwant}&no_peer_id=1&compact=1&supportcrypto=1&azver=3"@)) by {
        reveal_strlit("info_hash={infohash}&peer_id={peerid}&port={port}&azudp={port}&uploaded={uploaded}&downloaded={downloaded}&left={left}&corrupt=0&key={key}{event}&numwant={numwant}&no_peer_id=1&compact=1&supportcrypto=1&azver=3");
        lemma_template_placeholders(
            "info_hash={infohash}&peer_id={peerid}&port={port}&azudp={port}&uploaded={uploaded}&downloaded={downloaded}&left={left}&corrupt=0&key={key}{event}&numwant={numwant}&no_peer_id=1&compact=1&supportcrypto=1&azver=3"@,
            43, 72, 94, 112, 133, 138, 154,
        );
    }
    assert(carries_announce_placeholders("info_hash={infohash}&peer_id={peerid}&port={port}&natmapped=1&localip={localip}&port_type=wan&uploaded={uploaded}&downloaded={downloaded}&left={left}&key={key}{event}&numwant={numwant}&compact=1&no_peer_id=1"@)) by {
        reveal_strlit("info_hash={infohash}&peer_id={peerid}&port={port}&natmapped=1&localip={localip}&port_type=wan&uploaded={uploaded}&downloaded={downloaded}&left={left}&key={key}{event}&numwant={numwant}&compact=1&no_peer_id=1");
        lemma_template_placeholders(
            "info_hash={infohash}&peer_id={peerid}&port={port}&natmapped=1&localip={localip}&port_type=wan&uploaded={uploaded}&downloaded={downloaded}&left={left}&key={key}{event}&numwant={numwant}&compact=1&no_peer_id=1"@,
            43, 103, 125, 143, 154, 159, 175,
        );
    }
    assert(carries_announce_placeholders("info_hash={infohash}&peer_id={peerid}&port={port}&natmapped=1&localip={localip}&uploaded={uploaded}&downloaded={downloaded}&left={left}&key={key}{event}&numwant={numwant}&compact=1"@)) by {
        reveal_strlit("info_hash={infohash}&peer_id={peerid}&port={port}&natmapped=1&localip={localip}&uploaded={uploaded}&downloaded={downloaded}&left={left}&key={key}{event}&numwant={numwant}&compact=1");
        lemma_template_placeholders(
            "info_hash={infohash}&peer_id={peerid}&port={port}&natmapped=1&localip={localip}&uploaded={uploaded}&downloaded={downloaded}&left={left}&key={key}{event}&numwant={numwant}&compact=1"@,
            43, 89, 111, 129, 140, 145, 161,
        );
    }
    assert(carries_announce_placeholders("info_hash={infohash}&peer_id={peerid}&port={port}&uploaded={uploaded}&downloaded={downloaded}&left={left}&corrupt=0&key={key}{event}&numwant={numwant}&compact=1&no_peer_id=1"@)) by {
        reveal_strlit("info_hash={infohash}&peer_id={peerid}&port={port}&uploaded={uploaded}&downloaded={downloaded}&left={left}&corrupt=0&key={key}{event}&numwant={numwant}&compact=1&no_peer_id=1");
        lemma_template_placeholders(
            "info_hash={infohash}&peer_id={peerid}&port={port}&uploaded={uploaded}&downloaded={downloaded}&left={left}&corrupt=0&key={key}{event}&numwant={numwant}&compact=1&no_peer_id=1"@,
            43, 59, 81, 99, 120, 125, 141,
        );
    }
    assert(carries_announce_placeholders("info_hash={infohash}&peer_id={peerid}&port={port}&uploaded={uploaded}&downloaded={downloaded}&left={left}&key={key}{event}&numwant={numwant}&compact=1"@)) by {
        reveal_strlit("info_hash={infohash}&peer_id={peerid}&port={port}&uploaded={uploaded}&downloaded={downloaded}&left={left}&key={key}{event}&numwant={numwant}&compact=1");
        lemma_template_placeholders(
            "info_hash={infohash}&peer_id={peerid}&port={port}&uploaded={uploaded}&downloaded={downloaded}&left={left}&key={key}{event}&numwant={numwant}&compact=1"@,
            43, 59, 81, 99, 110, 115, 131,
        );
    }
    assert(carries_announce_placeholders("info_hash={infohash}&peer_id={peerid}&port={port}&uploaded={uploaded}&downloaded={downloaded}&left={left}&key={key}{event}&numwant={numwant}&compact=1&supportcrypto=1"@)) by {
        reveal_strlit("info_hash={infohash}&peer_id={peerid}&port={port}&uploaded={uploaded}&downloaded={downloaded}&left={left}&key={key}{event}&numwant={numwant}&compact=1&supportcrypto=1");
        lemma_template_placeholders(
            "info_hash={infohash}&peer_id={peerid}&port={port}&uploaded={uploaded}&downloaded={downloaded}&left={left}&key={key}{event}&numwant={numwant}&compact=1&supportcrypto=1"@,
            43, 59, 81, 99, 110, 115, 131,
        );
    }
    assert(carries_announce_placeholders("info_hash={infohash}&peer_id={peerid}&port={port}&uploaded={uploaded}&downloaded={downloaded}&left={left}&key={key}{event}&numwant={numwant}&compact=1&trackerid=48"@)) by {
        reveal_strlit("info_hash={infohash}&peer_id={peerid}&port={port}&uploaded={uploaded}&downloaded={downloaded}&left={left}&key={key}{event}&numwant={numwant}&compact=1&trackerid=48");
        lemma_template_placeholders(
            "info_hash={infohash}&peer_id={peerid}&port={port}&uploaded={uploaded}&downloaded={downloaded}&left={left}&key={key}{event}&numwant={numwant}&compact=1&trackerid=48"@,
            43, 59, 81, 99, 110, 115, 131,
        );
    }
    assert(carries_announce_placeholders("info_hash={infohash}&peer_id={peerid}&port={port}&uploaded={uploaded}&downloaded={downloaded}&left={left}&numwant={numwant}&key={key}&compact=1&supportcrypto=1{event}"@)) by {
        reveal_strlit("info_hash={infohash}&peer_id={peerid}&port={port}&uploaded={uploaded}&downloaded={downloaded}&left={left}&numwant={numwant}&key={key}&compact=1&supportcrypto=1{event}");
        lemma_template_placeholders(
            "info_hash={infohash}&peer_id={peerid}&port={port}&uploaded={uploaded}&downloaded={downloaded}&left={left}&numwant={numwant}&key={key}&compact=1&supportcrypto=1{event}"@,
            43, 59, 81, 99, 128, 159, 114,
        );
    }
}

/// Every registered profile's peer ID prefix fits in a peer ID, and its query
/// template carries every announce placeholder.
pub proof fn law_profile_prefixes_and_templates()
    ensures
        forall|i: int|
            0 <= i < profile_table().len() ==> (#[trigger] profile_table()[i]).peer_id_prefix.len() <= 20
                && carries_announce_placeholders(profile_table()[i].query_template),
{
    let t = profile_table();
    lemma_table_names();
    lemma_query_templates();
    reveal_strlit("-AZ2504-");
    reveal_strlit("-AZ3022-");
    reveal_strlit("-AZ3034-");
    reveal_strlit("-AZ3042-");
    reveal_strlit("-AZ3050-");
    reveal_strlit("-AZ3110-");
    reveal_strlit("-AZ4208-");
    reveal_strlit("-BC0092-");
    reveal_strlit("-BC0093-");
    reveal_strlit("-BC0096-");
    reveal_strlit("-BC0098-");
    reveal_strlit("-BC0103-");
    reveal_strlit("-BC0120-");
    reveal_strlit("-DE0586-");
    reveal_strlit("-DE0587-");
    reveal_strlit("-DE1200-");
    reveal_strlit("-KT2210-");
    reveal_strlit("-SP3602");
    reveal_strlit("-TR2500-");
    reveal_strlit("-TR2920-");
    reveal_strlit("-UT1600-");
    reveal_strlit("-UT1610-");
    reveal_strlit("-UT1750-");
    reveal_strlit("-UT1760-");
    reveal_strlit("-UT1770-");
    reveal_strlit("-UT1800-");
    reveal_strlit("-UT1810-");
    reveal_strlit("-UT1850-");
    reveal_strlit("-UT2010-");
    reveal_strlit("-UT3200-");
    reveal_strlit("-UT3300-");
    reveal_strlit("-UT3320-");
    reveal_strlit("A310--");
    reveal_strlit("AZ2500BT");
    reveal_strlit("M3-4-2--");
    reveal_strlit("M6-0-3--");
    reveal_strlit("Mbrst1-1-3");
    reveal_strlit("R26---");
    reveal_strlit("T03H-----");
    is_ascii_chars_encode_utf8("-AZ2504-"@);
    is_ascii_chars_encode_utf8("-AZ3022-"@);
    is_ascii_chars_encode_utf8("-AZ3034-"@);
    is_ascii_chars_encode_utf8("-AZ3042-"@);
    is_ascii_chars_encode_utf8("-AZ3050-"@);
    is_ascii_chars_encode_utf8("-AZ3110-"@);
    is_ascii_chars_encode_utf8("-AZ4208-"@);
    is_ascii_chars_encode_utf8("-BC0092-"@);
    is_ascii_chars_encode_utf8("-BC0093-"@);
    is_ascii_chars_encode_utf8("-BC0096-"@);
    is_ascii_chars_encode_utf8("-BC0098-"@);
    is_ascii_chars_encode_utf8("-BC0103-"@);
    is_ascii_chars_encode_utf8("-BC0120-"@);
    is_ascii_chars_encode_utf8("-DE0586-"@);
    is_ascii_chars_encode_utf8("-DE0587-"@);
    is_ascii_chars_encode_utf8("-DE1200-"@);
    is_ascii_chars_encode_utf8("-KT2210-"@);
    is_ascii_chars_encode_utf8("-SP3602"@);
    is_ascii_chars_encode_utf8("-TR2500-"@);
    is_ascii_chars_encode_utf8("-TR2920-"@);
    is_ascii_chars_encode_utf8("-UT1600-"@);
    is_ascii_chars_encode_utf8("-UT1610-"@);
    is_ascii_chars_encode_utf8("-UT1750-"@);
    is_ascii_chars_encode_utf8("-UT1760-"@);
    is_ascii_chars_encode_utf8("-UT1770-"@);
    is_ascii_chars_encode_utf8("-UT1800-"@);
    is_ascii_chars_encode_utf8("-UT1810-"@);
    is_ascii_chars_encode_utf8("-UT1850-"@);
    is_ascii_chars_encode_utf8("-UT2010-"@);
    is_ascii_chars_encode_utf8("-UT3200-"@);
    is_ascii_chars_encode_utf8("-UT3300-"@);
    is_ascii_chars_encode_utf8("-UT3320-"@);
    is_ascii_chars_encode_utf8("A310--"@);
    is_ascii_chars_encode_utf8("AZ2500BT"@);
    is_ascii_chars_encode_utf8("M3-4-2--"@);
    is_ascii_chars_encode_utf8("M6-0-3--"@);
    is_ascii_chars_encode_utf8("Mbrst1-1-3"@);
    is_ascii_chars_encode_utf8("R26---"@);
    is_ascii_chars_encode_utf8("T03H-----"@);
    let (u, b, v, o) = (utorrent_table(), bitcomet_table(), vuze_azureus_table(), other_table());
    assert forall|i: int| 0 <= i < t.len() implies (#[trigger] t[i]).peer_id_prefix.len() <= 20
        && carries_announce_placeholders(t[i].query_template) by {
        if i < u.len() {
            assert(t[i] == u[i]);
        } else if i < u.len() + b.len() {
            assert(t[i] == b[i - u.len()]);
        } else if i < u.len() + b.len() + v.len() {
            assert(t[i] == v[i - u.len() - b.len()]);
        } else {
            assert(t[i] == o[i - u.len() - b.len() - v.len()]);
        }
    }
}

} // verus!
