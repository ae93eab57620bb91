use doorways::catalog::{ImageSource, Launcher};
use doorways::numfmt::{u64_to_string, usize_to_string};
use doorways::providers::{from_epic, from_steam, from_twitch, EpicRecord, SteamRecord, TwitchRecord};

#[test]
fn decimal_rendering() {
    assert_eq!(u64_to_string(0), "0");
    assert_eq!(u64_to_string(7), "7");
    assert_eq!(u64_to_string(42), "42");
    assert_eq!(u64_to_string(10000), "10000");
    assert_eq!(u64_to_string(u64::MAX), "18446744073709551615");
    assert_eq!(usize_to_string(987654321), "987654321");
}

#[test]
fn twitch_records_normalize_in_order() {
    let records = vec![
        TwitchRecord {
            asin: "B01".to_string(),
            title: "First".to_string(),
            image_url: "http://img/1".to_string(),
            installed: true,
            install_directory: Some("c:/twitch/first".to_string()),
            working_subdir_override: Some("bin".to_string()),
            command: Some("first.exe".to_string()),
            args: Some(vec!["-x".to_string()]),
            launch_url: None,
        },
        TwitchRecord {
            asin: "B02".to_string(),
            title: "Second".to_string(),
            image_url: "http://img/2".to_string(),
            installed: false,
            install_directory: None,
            working_subdir_override: None,
            command: None,
            args: None,
            launch_url: Some("twitch://x".to_string()),
        },
    ];
    let games = from_twitch(records);
    assert_eq!(games.len(), 2);
    assert_eq!(games[0].id, "B01");
    assert_eq!(games[0].title, "First");
    assert_eq!(games[0].image_src, ImageSource::Url("http://img/1".to_string()));
    assert_eq!(games[0].command, Some("first.exe".to_string()));
    assert_eq!(games[0].working_subdir_override, Some("bin".to_string()));
    assert_eq!(games[0].launcher, Launcher::Twitch);
    assert_eq!(games[0].kids, None);
    assert_eq!(games[0].hidden, Some(false));
    assert_eq!(games[1].id, "B02");
    assert!(!games[1].installed);
    assert_eq!(games[1].launch_url, Some("twitch://x".to_string()));
}

#[test]
fn steam_records_skip_missing_logos() {
    let records = vec![
        SteamRecord {
            id: 440,
            title: "Team Game".to_string(),
            logo: Some("c:/steam/440.jpg".to_string()),
            installed: true,
        },
        SteamRecord { id: 570, title: "No Art".to_string(), logo: None, installed: true },
        SteamRecord {
            id: 620,
            title: "Puzzle Game".to_string(),
            logo: Some("c:/steam/620.jpg".to_string()),
            installed: false,
        },
    ];
    let games = from_steam(records);
    assert_eq!(games.len(), 2);
    assert_eq!(games[0].id, "440");
    assert_eq!(games[0].title, "Team Game");
    assert_eq!(games[0].image_src, ImageSource::Path("c:/steam/440.jpg".to_string()));
    assert_eq!(games[0].launch_url, Some("steam://rungameid/440".to_string()));
    assert_eq!(games[0].launcher, Launcher::Steam);
    assert_eq!(games[0].command, None);
    assert_eq!(games[1].id, "620");
    assert!(!games[1].installed);
    assert_eq!(games[1].launch_url, Some("steam://rungameid/620".to_string()));
}

#[test]
fn epic_records_skip_missing_artwork() {
    let records = vec![
        EpicRecord {
            display_name: "Rocket Game".to_string(),
            image_url: Some("http://img/r".to_string()),
            install_location: "c:/epic/rocket".to_string(),
            launch_executable: "rocket.exe".to_string(),
        },
        EpicRecord {
            display_name: "No Art".to_string(),
            image_url: None,
            install_location: "c:/epic/noart".to_string(),
            launch_executable: "noart.exe".to_string(),
        },
    ];
    let games = from_epic(records);
    assert_eq!(games.len(), 1);
    assert_eq!(games[0].id, "Rocket Game");
    assert_eq!(games[0].title, "Rocket Game");
    assert!(games[0].installed);
    assert_eq!(games[0].install_directory, Some("c:/epic/rocket".to_string()));
    assert_eq!(games[0].command, Some("rocket.exe".to_string()));
    assert_eq!(games[0].launch_url, None);
    assert_eq!(games[0].launcher, Launcher::Epic);
}
