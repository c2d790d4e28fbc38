use localzone::text::{str_eq, suffix_after};
use localzone::unix::{Sources, Stage, Step};
use localzone::validation::advance_default;
use localzone::{get_local_zone, get_local_zone_with_validation, wasm32, Host};

fn posix(environment: Option<&str>, timezone_file: Option<&str>) -> Host {
    Host::Posix(Sources {
        environment: environment.map(String::from),
        timezone_file: timezone_file.map(String::from),
        zoneinfo_file: None,
        localtime_link: None,
    })
}

fn windows(status: u32, name: &str) -> Host {
    let mut standard_name: Vec<u16> = name.encode_utf16().collect();
    standard_name.resize(32, 0);
    Host::Windows { status, standard_name }
}

fn web(resolved: Option<&str>) -> Host {
    Host::Web(resolved.map(String::from))
}

fn zone(name: &str) -> Option<String> {
    Some(String::from(name))
}

#[test]
fn test_get_zone() {
    assert!(get_local_zone(&posix(Some("Europe/Vienna"), None)).is_some());
    assert!(get_local_zone(&windows(1, "W. Europe Standard Time")).is_some());
    assert!(get_local_zone(&web(Some("Europe/Vienna"))).is_some());
}

#[test]
fn default_predicate_knows_the_database() {
    assert_eq!(get_local_zone(&posix(Some("Europe/Vienna"), None)), zone("Europe/Vienna"));
    assert_eq!(get_local_zone(&posix(Some("Europe/Atlantis"), None)), None);
    assert_eq!(
        get_local_zone(&posix(Some("Europe/Atlantis"), Some("Asia/Tokyo\n"))),
        zone("Asia/Tokyo")
    );
    assert_eq!(get_local_zone(&posix(Some("europe/vienna"), None)), None);
    assert_eq!(get_local_zone(&posix(None, None)), None);
}

#[test]
fn caller_supplies_the_predicate() {
    assert_eq!(
        get_local_zone_with_validation(&posix(Some("Europe/Atlantis"), None), |_: &str| true),
        zone("Europe/Atlantis")
    );
    assert_eq!(
        get_local_zone_with_validation(&posix(Some("Europe/Vienna"), None), |_: &str| false),
        None
    );
}

#[test]
fn windows_host_asks_once_about_the_iana_name() {
    let mut asked: Vec<String> = Vec::new();
    let found = get_local_zone_with_validation(&windows(0, "W. Europe Standard Time"), |name: &str| {
        asked.push(String::from(name));
        true
    });
    assert_eq!(found, zone("Europe/Berlin"));
    assert_eq!(asked, vec![String::from("Europe/Berlin")]);
}

#[test]
fn windows_host_honours_the_predicate() {
    assert_eq!(
        get_local_zone_with_validation(&windows(0, "W. Europe Standard Time"), |_: &str| false),
        None
    );
    assert_eq!(get_local_zone(&windows(2, "Tokyo Standard Time")), zone("Asia/Tokyo"));
    assert_eq!(get_local_zone(&windows(0xffff_ffff, "Tokyo Standard Time")), None);
    let mut calls = 0;
    let found = get_local_zone_with_validation(&windows(0, "No Such Time"), |_: &str| {
        calls += 1;
        true
    });
    assert_eq!(found, None);
    assert_eq!(calls, 0);
}

#[test]
fn web_host_is_taken_at_its_word() {
    let mut calls = 0;
    let found = get_local_zone_with_validation(&web(Some("Not a zone!")), |_: &str| {
        calls += 1;
        false
    });
    assert_eq!(found, zone("Not a zone!"));
    assert_eq!(calls, 0);
    assert_eq!(get_local_zone(&web(Some("Europe/Atlantis"))), zone("Europe/Atlantis"));
    assert_eq!(get_local_zone(&web(Some(""))), zone(""));
    assert_eq!(get_local_zone(&web(None)), None);
}

#[test]
fn web_prober_hands_the_value_on() {
    assert_eq!(wasm32::zone_field(), "timeZone");
    assert_eq!(wasm32::get_local_zone(Some("Europe/Vienna")), zone("Europe/Vienna"));
    assert_eq!(wasm32::get_local_zone(Some(" x ")), zone(" x "));
    assert_eq!(wasm32::get_local_zone(None), None);
}

#[test]
fn lookup_twice_gives_the_same() {
    let host = posix(Some("Europe/Atlantis"), Some("Asia/Tokyo\n"));
    assert_eq!(get_local_zone(&host), get_local_zone(&host));
    let host = windows(0, "W. Europe Standard Time");
    assert_eq!(get_local_zone(&host), get_local_zone(&host));
}

#[test]
fn strings_are_compared_by_their_characters() {
    assert!(str_eq("", ""));
    assert!(str_eq("Europe/Vienna", "Europe/Vienna"));
    assert!(!str_eq("Europe/Vienna", "Europe/Vienn"));
    assert!(!str_eq("Europe/Vienna", "Europe/Vienne"));
    assert!(!str_eq("Z\u{fc}rich", "Zurich"));
    assert!(str_eq("Z\u{fc}rich", "Z\u{fc}rich"));
}

#[test]
fn suffix_follows_the_first_occurrence() {
    assert_eq!(suffix_after("a/b/c", "/"), Some("b/c"));
    assert_eq!(suffix_after("a/b/c", "c"), Some(""));
    assert_eq!(suffix_after("a/b/c", "d"), None);
    assert_eq!(suffix_after("aaa", "aa"), Some("a"));
    assert_eq!(suffix_after("", "a"), None);
    assert_eq!(suffix_after("abc", ""), Some("abc"));
}

#[test]
fn default_step_knows_the_database() {
    match advance_default(Stage::Environment, Some("Europe/Vienna")) {
        Step::Found(name) => assert_eq!(name, "Europe/Vienna"),
        other => panic!("{:?}", other),
    }
    assert!(matches!(
        advance_default(Stage::Environment, Some("Europe/Atlantis")),
        Step::Probe(Stage::TimezoneFile)
    ));
    assert!(matches!(
        advance_default(Stage::Environment, Some("Europe/Vienna\n")),
        Step::Probe(Stage::TimezoneFile)
    ));
    match advance_default(Stage::TimezoneFile, Some("Asia/Tokyo\n")) {
        Step::Found(name) => assert_eq!(name, "Asia/Tokyo"),
        other => panic!("{:?}", other),
    }
    match advance_default(Stage::LocaltimeLink, Some("/usr/share/zoneinfo/Etc/UTC")) {
        Step::Found(name) => assert_eq!(name, "Etc/UTC"),
        other => panic!("{:?}", other),
    }
    assert!(matches!(
        advance_default(Stage::LocaltimeLink, Some("/usr/share/zoneinfo/Nowhere")),
        Step::Unknown
    ));
    assert!(matches!(advance_default(Stage::LocaltimeLink, None), Step::Unknown));
}
