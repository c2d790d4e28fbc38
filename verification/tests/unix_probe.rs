use localzone::unix::{
    advance, get_local_zone, might_be_unix_tz, validate, zone_from_env, Sources, Stage, Step,
};

fn sources(
    environment: Option<&str>,
    timezone_file: Option<&str>,
    zoneinfo_file: Option<&str>,
    localtime_link: Option<&str>,
) -> Sources {
    Sources {
        environment: environment.map(String::from),
        timezone_file: timezone_file.map(String::from),
        zoneinfo_file: zoneinfo_file.map(String::from),
        localtime_link: localtime_link.map(String::from),
    }
}

fn zone(name: &str) -> Option<String> {
    Some(String::from(name))
}

#[test]
fn plausible_names() {
    assert!(might_be_unix_tz("Europe/Vienna"));
    assert!(might_be_unix_tz("Etc/GMT+12"));
    assert!(might_be_unix_tz("Etc/GMT-14"));
    assert!(might_be_unix_tz("America/Port-au-Prince"));
    assert!(might_be_unix_tz("America/Argentina/Rio_Gallegos"));
    assert!(might_be_unix_tz("UTC"));
    assert!(might_be_unix_tz("0"));
    assert!(might_be_unix_tz("azAZ09-+/_"));
}

#[test]
fn implausible_names() {
    assert!(!might_be_unix_tz(""));
    assert!(!might_be_unix_tz(" "));
    assert!(!might_be_unix_tz("Europe/Vienna\n"));
    assert!(!might_be_unix_tz(" Europe/Vienna"));
    assert!(!might_be_unix_tz("Europe Vienna"));
    assert!(!might_be_unix_tz("Europe/Vienna\0"));
    assert!(!might_be_unix_tz("\0"));
    assert!(!might_be_unix_tz("Europe/Z\u{fc}rich"));
    assert!(!might_be_unix_tz("Europe\\Vienna"));
    assert!(!might_be_unix_tz("Europe/Vienna."));
    assert!(!might_be_unix_tz(":Europe/Vienna"));
    assert!(!might_be_unix_tz("`"));
    assert!(!might_be_unix_tz("@"));
    assert!(!might_be_unix_tz("["));
    assert!(!might_be_unix_tz("{"));
    assert!(!might_be_unix_tz(","));
    assert!(!might_be_unix_tz("\u{ff21}"));
}

#[test]
fn stages_come_in_order() {
    assert_eq!(Stage::first(), Stage::Environment);
    assert_eq!(Stage::Environment.next(), Some(Stage::TimezoneFile));
    assert_eq!(Stage::TimezoneFile.next(), Some(Stage::ZoneinfoFile));
    assert_eq!(Stage::ZoneinfoFile.next(), Some(Stage::LocaltimeLink));
    assert_eq!(Stage::LocaltimeLink.next(), None);
}

#[test]
fn stages_name_their_places() {
    assert_eq!(Stage::Environment.location(), "TZ");
    assert_eq!(Stage::TimezoneFile.location(), "/etc/timezone");
    assert_eq!(Stage::ZoneinfoFile.location(), "/var/db/zoneinfo");
    assert_eq!(Stage::LocaltimeLink.location(), "/etc/localtime");
}

#[test]
fn candidates_are_drawn_by_stage() {
    assert_eq!(Stage::Environment.candidate(Some(" Europe/Vienna\n")), Some(" Europe/Vienna\n"));
    assert_eq!(Stage::TimezoneFile.candidate(Some(" Europe/Vienna\n")), Some("Europe/Vienna"));
    assert_eq!(Stage::ZoneinfoFile.candidate(Some("\tEurope/Vienna \r\n")), Some("Europe/Vienna"));
    assert_eq!(Stage::ZoneinfoFile.candidate(Some("Europe/ Vienna")), Some("Europe/ Vienna"));
    assert_eq!(Stage::TimezoneFile.candidate(Some(" \n")), Some(""));
    assert_eq!(
        Stage::TimezoneFile.candidate(Some("\u{3000}\u{85}Europe/Vienna\u{a0}\u{2028}")),
        Some("Europe/Vienna")
    );
    assert_eq!(Stage::TimezoneFile.candidate(Some("\u{200b}UTC")), Some("\u{200b}UTC"));
    assert_eq!(
        Stage::LocaltimeLink.candidate(Some("/usr/share/zoneinfo/Europe/Vienna")),
        Some("Europe/Vienna")
    );
    assert_eq!(
        Stage::LocaltimeLink.candidate(Some("/a/zoneinfo/b/zoneinfo/c")),
        Some("b/zoneinfo/c")
    );
    assert_eq!(Stage::LocaltimeLink.candidate(Some("/usr/share/zoneinfo/")), Some(""));
    assert_eq!(Stage::LocaltimeLink.candidate(Some("/usr/share/zoneinfo")), None);
    assert_eq!(Stage::LocaltimeLink.candidate(Some("/etc/localtime")), None);
    assert_eq!(Stage::Environment.candidate(None), None);
    assert_eq!(Stage::TimezoneFile.candidate(None), None);
    assert_eq!(Stage::LocaltimeLink.candidate(None), None);
}

#[test]
fn both_gates_must_open() {
    assert_eq!(validate(Some("Europe/Vienna"), &mut |_: &str| true), zone("Europe/Vienna"));
    assert_eq!(validate(Some("Europe/Vienna"), &mut |_: &str| false), None);
    assert_eq!(validate(Some("Europe Vienna"), &mut |_: &str| true), None);
    assert_eq!(validate(Some(""), &mut |_: &str| true), None);
    assert_eq!(validate(None, &mut |_: &str| true), None);
}

#[test]
fn predicate_is_asked_about_plausible_names_only() {
    let mut asked: Vec<String> = Vec::new();
    let found = get_local_zone(
        &sources(Some("not a zone"), Some("Europe/Vienna\n"), Some("\0\0"), Some("/no/marker")),
        |name: &str| {
            asked.push(String::from(name));
            false
        },
    );
    assert_eq!(found, None);
    assert_eq!(asked, vec![String::from("Europe/Vienna")]);
}

#[test]
fn implausible_candidates_are_never_accepted() {
    let found = get_local_zone(
        &sources(
            Some("Europe/Vienna "),
            Some("Europe/\0Vienna"),
            Some("Europe Vienna"),
            Some("/usr/share/zoneinfo/Europe/Vienna\n"),
        ),
        |_: &str| true,
    );
    assert_eq!(found, None);
}

#[test]
fn environment_wins_over_the_files() {
    let all = sources(
        Some("Europe/Vienna"),
        Some("Europe/Berlin\n"),
        Some("Europe/Paris\n"),
        Some("/usr/share/zoneinfo/Europe/Rome"),
    );
    assert_eq!(get_local_zone(&all, |_: &str| true), zone("Europe/Vienna"));
}

#[test]
fn later_stages_are_not_tried_after_a_find() {
    let all = sources(
        Some("Europe/Vienna"),
        Some("Europe/Berlin\n"),
        Some("Europe/Paris\n"),
        Some("/usr/share/zoneinfo/Europe/Rome"),
    );
    let mut calls = 0;
    let found = get_local_zone(&all, |_: &str| {
        calls += 1;
        true
    });
    assert_eq!(found, zone("Europe/Vienna"));
    assert_eq!(calls, 1);
}

#[test]
fn stages_fall_through_in_order() {
    let all = sources(
        Some("Europe/Vienna"),
        Some("Europe/Berlin\n"),
        Some("Europe/Paris\n"),
        Some("/usr/share/zoneinfo/Europe/Rome"),
    );
    assert_eq!(get_local_zone(&all, |name: &str| name != "Europe/Vienna"), zone("Europe/Berlin"));
    assert_eq!(get_local_zone(&all, |name: &str| name.ends_with('s')), zone("Europe/Paris"));
    assert_eq!(get_local_zone(&all, |name: &str| name.ends_with('e')), zone("Europe/Rome"));
    assert_eq!(
        get_local_zone(&sources(None, None, Some("UTC"), None), |_: &str| true),
        zone("UTC")
    );
    assert_eq!(
        get_local_zone(
            &sources(None, Some(""), None, Some("/usr/share/zoneinfo/Etc/GMT+12")),
            |_: &str| true
        ),
        zone("Etc/GMT+12")
    );
}

#[test]
fn rejecting_predicate_finds_nothing() {
    let all = sources(
        Some("Europe/Vienna"),
        Some("Europe/Berlin\n"),
        Some("Europe/Paris\n"),
        Some("/usr/share/zoneinfo/Europe/Rome"),
    );
    let mut calls = 0;
    let found = get_local_zone(&all, |_: &str| {
        calls += 1;
        false
    });
    assert_eq!(found, None);
    assert_eq!(calls, 4);
}

#[test]
fn nothing_to_read_gives_nothing() {
    assert_eq!(get_local_zone(&sources(None, None, None, None), |_: &str| true), None);
}

#[test]
fn probing_twice_gives_the_same() {
    let all = sources(None, Some("Europe/Berlin\n"), None, Some("/usr/share/zoneinfo/Europe/Rome"));
    let first = get_local_zone(&all, |name: &str| name.starts_with("Europe/"));
    let second = get_local_zone(&all, |name: &str| name.starts_with("Europe/"));
    assert_eq!(first, zone("Europe/Berlin"));
    assert_eq!(first, second);
}

#[test]
fn environment_stage_alone() {
    assert_eq!(zone_from_env(Some("Europe/Vienna"), &mut |_: &str| true), zone("Europe/Vienna"));
    assert_eq!(zone_from_env(Some("Europe/Vienna"), &mut |_: &str| false), None);
    assert_eq!(zone_from_env(None, &mut |_: &str| true), None);
}

#[test]
fn environment_stage_alone_asks_the_predicate_only() {
    assert_eq!(
        zone_from_env(Some("America/New York"), &mut |_: &str| true),
        zone("America/New York")
    );
    assert_eq!(zone_from_env(Some("Europe/Vienna\n"), &mut |_: &str| true), zone("Europe/Vienna\n"));
    assert_eq!(zone_from_env(Some(" Europe/Vienna "), &mut |_: &str| true), zone(" Europe/Vienna "));
    assert_eq!(zone_from_env(Some(""), &mut |_: &str| true), zone(""));
    assert_eq!(zone_from_env(Some("America/New York"), &mut |_: &str| false), None);
    assert_eq!(
        zone_from_env(Some("Europe/Vienna"), &mut |name: &str| might_be_unix_tz(name)),
        zone("Europe/Vienna")
    );
    assert_eq!(zone_from_env(Some("Europe/Vienna\n"), &mut |name: &str| might_be_unix_tz(name)), None);
}

#[test]
fn environment_stage_alone_asks_once() {
    let mut asked: Vec<String> = Vec::new();
    let found = zone_from_env(Some("Europe/Vienna\n"), &mut |name: &str| {
        asked.push(String::from(name));
        true
    });
    assert_eq!(found, zone("Europe/Vienna\n"));
    assert_eq!(asked, vec![String::from("Europe/Vienna\n")]);

    let mut asked: Vec<String> = Vec::new();
    let found = zone_from_env(Some("not a zone"), &mut |name: &str| {
        asked.push(String::from(name));
        false
    });
    assert_eq!(found, None);
    assert_eq!(asked, vec![String::from("not a zone")]);

    let mut calls = 0;
    let found = zone_from_env(None, &mut |_: &str| {
        calls += 1;
        true
    });
    assert_eq!(found, None);
    assert_eq!(calls, 0);
}

#[test]
fn steps_of_the_probe() {
    let mut yes = |_: &str| true;
    let mut no = |_: &str| false;
    assert!(matches!(
        advance(Stage::Environment, None, &mut yes),
        Step::Probe(Stage::TimezoneFile)
    ));
    assert!(matches!(
        advance(Stage::Environment, Some("Europe/Vienna"), &mut no),
        Step::Probe(Stage::TimezoneFile)
    ));
    assert!(matches!(
        advance(Stage::TimezoneFile, Some("Europe/ Vienna"), &mut yes),
        Step::Probe(Stage::ZoneinfoFile)
    ));
    assert!(matches!(
        advance(Stage::ZoneinfoFile, Some("\n"), &mut yes),
        Step::Probe(Stage::LocaltimeLink)
    ));
    assert!(matches!(advance(Stage::LocaltimeLink, Some("/etc/localtime"), &mut yes), Step::Unknown));
    assert!(matches!(
        advance(Stage::LocaltimeLink, Some("/usr/share/zoneinfo/UTC"), &mut no),
        Step::Unknown
    ));
    match advance(Stage::TimezoneFile, Some("Europe/Vienna\n"), &mut yes) {
        Step::Found(name) => assert_eq!(name, "Europe/Vienna"),
        other => panic!("{:?}", other),
    }
    match advance(Stage::LocaltimeLink, Some("/usr/share/zoneinfo/posix/UTC"), &mut yes) {
        Step::Found(name) => assert_eq!(name, "posix/UTC"),
        other => panic!("{:?}", other),
    }
}
