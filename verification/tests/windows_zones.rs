use localzone::windows::{
    foreign_to_iana, get_local_zone, group_rows, iana_to_foreign, string_from_utf16, zone_mappings,
};
use localzone::{iana_to_win_zone, win_zone_to_iana, ZoneMapping};

fn wide(text: &str) -> Vec<u16> {
    text.encode_utf16().collect()
}

fn buffer(text: &str) -> Vec<u16> {
    let mut units = wide(text);
    units.resize(32, 0);
    units
}

fn record(windows: &'static str, territory: &'static str, iana: &[&'static str]) -> ZoneMapping {
    ZoneMapping::new(windows, territory, iana.to_vec()).unwrap()
}

#[test]
fn test_win_zone_to_iana() {
    assert_eq!(
        win_zone_to_iana("US Mountain Standard Time", Some("CA")),
        Some("America/Creston")
    );
    assert_eq!(
        win_zone_to_iana("US Mountain Standard Time", None),
        Some("America/Phoenix")
    );
}

#[test]
fn test_iana_to_win_zone() {
    assert_eq!(
        iana_to_win_zone("Europe/Vienna"),
        Some(("W. Europe Standard Time", "AT"))
    );
}

#[test]
fn world_territory_is_an_ordinary_code() {
    assert_eq!(win_zone_to_iana("UTC", Some("001")), Some("Etc/UTC"));
    assert_eq!(win_zone_to_iana("W. Europe Standard Time", Some("001")), Some("Europe/Berlin"));
    assert_eq!(win_zone_to_iana("W. Europe Standard Time", Some("")), None);
}

#[test]
fn lookup_misses_give_none() {
    assert_eq!(win_zone_to_iana("Middle Earth Standard Time", None), None);
    assert_eq!(win_zone_to_iana("US Mountain Standard Time", Some("AT")), None);
    assert_eq!(win_zone_to_iana("us mountain standard time", None), None);
    assert_eq!(win_zone_to_iana("", None), None);
    assert_eq!(iana_to_win_zone("Europe/Atlantis"), None);
    assert_eq!(iana_to_win_zone(""), None);
}

#[test]
fn reverse_lookup_finds_aliases() {
    assert_eq!(
        iana_to_win_zone("America/Dawson_Creek"),
        Some(("US Mountain Standard Time", "CA"))
    );
    assert_eq!(
        iana_to_win_zone("America/Fort_Nelson"),
        Some(("US Mountain Standard Time", "CA"))
    );
    assert_eq!(iana_to_win_zone("Europe/Busingen"), Some(("W. Europe Standard Time", "DE")));
}

#[test]
fn reverse_lookup_takes_the_first_record() {
    assert_eq!(
        iana_to_win_zone("America/Phoenix"),
        Some(("US Mountain Standard Time", "001"))
    );
    assert_eq!(iana_to_win_zone("Europe/Berlin"), Some(("W. Europe Standard Time", "001")));
}

#[test]
fn round_trip_need_not_return() {
    let forward = win_zone_to_iana("US Mountain Standard Time", Some("US")).unwrap();
    assert_eq!(forward, "America/Phoenix");
    assert_eq!(iana_to_win_zone(forward), Some(("US Mountain Standard Time", "001")));

    let (windows, territory) = iana_to_win_zone("America/Dawson_Creek").unwrap();
    assert_eq!(win_zone_to_iana(windows, Some(territory)), Some("America/Creston"));
}

#[test]
fn round_trip_can_change_the_foreign_name() {
    let table = vec![record("X", "001", &["a", "b"]), record("Y", "001", &["b"])];
    assert_eq!(foreign_to_iana(&table, "Y", None), Some("b"));
    assert_eq!(iana_to_foreign(&table, "b"), Some(("X", "001")));
    assert_eq!(foreign_to_iana(&table, "X", Some("001")), Some("a"));
}

#[test]
fn first_match_wins_among_duplicates() {
    let table = vec![
        record("X", "AT", &["first"]),
        record("X", "AT", &["second"]),
        record("X", "DE", &["third", "first"]),
    ];
    assert_eq!(foreign_to_iana(&table, "X", Some("AT")), Some("first"));
    assert_eq!(foreign_to_iana(&table, "X", None), Some("first"));
    assert_eq!(foreign_to_iana(&table, "X", Some("DE")), Some("third"));
    assert_eq!(iana_to_foreign(&table, "first"), Some(("X", "AT")));
    assert_eq!(iana_to_foreign(&table, "second"), Some(("X", "AT")));
    assert_eq!(iana_to_foreign(&table, "third"), Some(("X", "DE")));
}

#[test]
fn empty_table_knows_nothing() {
    let table: Vec<ZoneMapping> = Vec::new();
    assert_eq!(foreign_to_iana(&table, "X", None), None);
    assert_eq!(iana_to_foreign(&table, "a"), None);
}

#[test]
fn a_record_needs_a_zone() {
    assert!(ZoneMapping::new("X", "001", Vec::new()).is_none());
    let mapping = ZoneMapping::new("X", "001", vec!["a", "b"]).unwrap();
    assert_eq!(mapping.windows(), "X");
    assert_eq!(mapping.territory(), "001");
    assert_eq!(mapping.iana(), &vec!["a", "b"]);
    assert_eq!(mapping.canonical(), "a");
    assert!(mapping.holds("b"));
    assert!(!mapping.holds("c"));
    assert!(!mapping.holds(""));
}

#[test]
fn rows_are_grouped_into_records() {
    let rows = [
        ("X", "001", "a"),
        ("X", "AT", "b"),
        ("X", "AT", "c"),
        ("Y", "AT", "d"),
        ("X", "AT", "e"),
    ];
    let table = group_rows(&rows);
    assert_eq!(table.len(), 4);
    assert_eq!(table[0].iana(), &vec!["a"]);
    assert_eq!(table[1].windows(), "X");
    assert_eq!(table[1].territory(), "AT");
    assert_eq!(table[1].iana(), &vec!["b", "c"]);
    assert_eq!(table[2].windows(), "Y");
    assert_eq!(table[2].iana(), &vec!["d"]);
    assert_eq!(table[3].iana(), &vec!["e"]);
    assert!(group_rows(&[]).is_empty());
}

#[test]
fn the_table_is_held_as_records() {
    let table = zone_mappings();
    assert_eq!(table.len(), 503);
    assert_eq!(table[0].windows(), "Dateline Standard Time");
    assert_eq!(table[0].territory(), "001");
    assert_eq!(table[0].iana(), &vec!["Etc/GMT+12"]);
    let last = &table[table.len() - 1];
    assert_eq!(last.windows(), "Line Islands Standard Time");
    assert_eq!(last.territory(), "ZZ");
    assert_eq!(last.canonical(), "Etc/GMT-14");
    assert_eq!(
        foreign_to_iana(&table, "US Mountain Standard Time", Some("CA")),
        Some("America/Creston")
    );
    assert_eq!(iana_to_foreign(&table, "Europe/Vienna"), Some(("W. Europe Standard Time", "AT")));
}

#[test]
fn every_windows_zone_has_a_default() {
    let table = zone_mappings();
    for mapping in &table {
        assert_eq!(
            win_zone_to_iana(mapping.windows(), None),
            win_zone_to_iana(mapping.windows(), Some("001"))
        );
        assert!(win_zone_to_iana(mapping.windows(), Some(mapping.territory())).is_some());
        for name in mapping.iana() {
            assert!(iana_to_win_zone(name).is_some());
        }
    }
}

#[test]
fn text_ends_at_the_first_zero() {
    assert_eq!(string_from_utf16(&buffer("W. Europe Standard Time")), "W. Europe Standard Time");
    assert_eq!(string_from_utf16(&wide("UTC")), "UTC");
    assert_eq!(string_from_utf16(&[0x55, 0x54, 0, 0x43, 0]), "UT");
    assert_eq!(string_from_utf16(&[0, 0x55]), "");
    assert_eq!(string_from_utf16(&[]), "");
}

#[test]
fn text_is_decoded_from_utf16() {
    assert_eq!(string_from_utf16(&[0x5a, 0xfc, 0x72, 0x69, 0x63, 0x68, 0]), "Zürich");
    assert_eq!(string_from_utf16(&[0xd834, 0xdd1e, 0x6d]), "\u{1d11e}m");
    assert_eq!(string_from_utf16(&[0xd800, 0x41]), "\u{fffd}A");
    assert_eq!(string_from_utf16(&[0x41, 0xdc00]), "A\u{fffd}");
}

#[test]
fn windows_host_is_mapped_through_the_table() {
    assert_eq!(
        get_local_zone(0, &buffer("W. Europe Standard Time")),
        Some(String::from("Europe/Berlin"))
    );
    assert_eq!(
        get_local_zone(1, &buffer("US Mountain Standard Time")),
        Some(String::from("America/Phoenix"))
    );
    assert_eq!(get_local_zone(2, &buffer("UTC")), Some(String::from("Etc/UTC")));
}

#[test]
fn windows_host_without_an_answer() {
    assert_eq!(get_local_zone(3, &buffer("W. Europe Standard Time")), None);
    assert_eq!(get_local_zone(0xffff_ffff, &buffer("W. Europe Standard Time")), None);
    assert_eq!(get_local_zone(0, &buffer("Mitteleuropäische Zeit")), None);
    assert_eq!(get_local_zone(0, &buffer("")), None);
    assert_eq!(get_local_zone(0, &[]), None);
}
