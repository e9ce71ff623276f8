use gmpublisher_core::appdata::{binary_names, AppData, BinaryProbe, Platform, Settings, SteamUser};

fn fresh(platform: Platform) -> AppData {
    AppData::init(
        SteamUser { steamid: 7, name: "user".to_string() },
        "1.2.3".to_string(),
        Settings { gmod: Some("/games/GarrysMod".to_string()) },
        "/home/user/.gmpublisher".to_string(),
        Some("/home/user/Downloads".to_string()),
        "/tmp".to_string(),
        platform,
    )
}

fn probe(gmad_is_file: bool, gmpublish_is_file: bool) -> BinaryProbe {
    BinaryProbe {
        gmad: "/games/GarrysMod/gmad_linux".to_string(),
        gmad_is_file,
        gmpublish: "/games/GarrysMod/gmpublish_linux".to_string(),
        gmpublish_is_file,
    }
}

#[test]
fn init_knows_nothing_of_the_game() {
    let app_data = fresh(Platform::Linux);
    assert_eq!(
        app_data,
        AppData {
            version: "1.2.3".to_string(),
            settings: Settings { gmod: Some("/games/GarrysMod".to_string()) },
            data_dir: "/home/user/.gmpublisher".to_string(),
            gmad: None,
            gmpublish: None,
            gmod: None,
            user: SteamUser { steamid: 7, name: "user".to_string() },
            path_separator: '/',
            downloads_dir: Some("/home/user/Downloads".to_string()),
            tmp_dir: "/tmp".to_string(),
        }
    );
}

#[test]
fn path_separator_goes_by_platform() {
    assert_eq!(fresh(Platform::Windows).path_separator, '\\');
    assert_eq!(fresh(Platform::Linux).path_separator, '/');
    assert_eq!(fresh(Platform::MacOs).path_separator, '/');
}

#[test]
fn binary_names_go_by_platform() {
    assert_eq!(binary_names(Platform::Windows), ("gmad.exe", "gmpublish.exe"));
    assert_eq!(binary_names(Platform::Linux), ("gmad_linux", "gmpublish_linux"));
    assert_eq!(binary_names(Platform::MacOs), ("gmad_osx", "gmpublish_osx"));
}

#[test]
fn both_binaries_present_are_noted() {
    let mut app_data = fresh(Platform::Linux);
    app_data.gmod = Some("/games/GarrysMod".to_string());
    assert_eq!(app_data.find_workshop_binaries(probe(true, true)), Some(()));
    assert_eq!(app_data.gmad, Some("/games/GarrysMod/gmad_linux".to_string()));
    assert_eq!(app_data.gmpublish, Some("/games/GarrysMod/gmpublish_linux".to_string()));
    assert_eq!(app_data.gmod, Some("/games/GarrysMod".to_string()));
}

#[test]
fn one_binary_without_the_other_counts_as_none() {
    let mut app_data = fresh(Platform::Linux);
    app_data.gmod = Some("/games/GarrysMod".to_string());
    let before = app_data.clone();
    assert_eq!(app_data.find_workshop_binaries(probe(true, false)), None);
    assert_eq!(app_data, before);
    assert_eq!(app_data.find_workshop_binaries(probe(false, true)), None);
    assert_eq!(app_data, before);
    assert_eq!(app_data.find_workshop_binaries(probe(false, false)), None);
    assert_eq!(app_data, before);
}

#[test]
fn update_settings_changes_the_settings_only() {
    let mut app_data = fresh(Platform::Linux);
    let mut expected = app_data.clone();
    expected.settings = Settings { gmod: None };
    app_data.update_settings(Settings { gmod: None });
    assert_eq!(app_data, expected);
}
