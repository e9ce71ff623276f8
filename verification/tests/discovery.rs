use gmpublisher_core::appdata::{AppData, BinaryProbe, Platform, Settings, SteamUser};
use gmpublisher_core::discovery::{Discovery, DiscoveryReply, DiscoveryRequest, GMOD_APP_ID};

const SET: &str = "/custom/GarrysMod";
const STEAM: &str = "/steam/steamapps/common/GarrysMod";

fn fresh(gmod: Option<&str>) -> AppData {
    AppData::init(
        SteamUser { steamid: 7, name: "user".to_string() },
        "1.2.3".to_string(),
        Settings { gmod: gmod.map(|dir| dir.to_string()) },
        "/home/user/.gmpublisher".to_string(),
        None,
        "/tmp".to_string(),
        Platform::Linux,
    )
}

fn probe(dir: &str, gmad_is_file: bool, gmpublish_is_file: bool) -> BinaryProbe {
    BinaryProbe {
        gmad: format!("{}/gmad_linux", dir),
        gmad_is_file,
        gmpublish: format!("{}/gmpublish_linux", dir),
        gmpublish_is_file,
    }
}

#[test]
fn settings_path_with_both_binaries_is_used_without_falling_back() {
    let mut app_data = fresh(Some(SET));
    let search = Discovery::start(&app_data);
    assert_eq!(search.request(), DiscoveryRequest::IsDir { path: SET.to_string() });
    let search = app_data.find_gmod(search, DiscoveryReply::IsDir(true));
    assert_eq!(search.request(), DiscoveryRequest::Probe { dir: SET.to_string() });
    let search = app_data.find_gmod(search, DiscoveryReply::Probed(probe(SET, true, true)));
    assert_eq!(search, Discovery::Done { found: Some(()) });
    assert_eq!(search.request(), DiscoveryRequest::Finish);
    assert_eq!(app_data.gmod, Some(SET.to_string()));
    assert_eq!(app_data.gmad, Some(format!("{}/gmad_linux", SET)));
    assert_eq!(app_data.gmpublish, Some(format!("{}/gmpublish_linux", SET)));
}

#[test]
fn settings_path_with_one_binary_falls_back_to_locating() {
    let mut app_data = fresh(Some(SET));
    let search = Discovery::start(&app_data);
    let search = app_data.find_gmod(search, DiscoveryReply::IsDir(true));
    let search = app_data.find_gmod(search, DiscoveryReply::Probed(probe(SET, true, false)));
    assert_eq!(search.request(), DiscoveryRequest::Locate);
    assert_eq!(app_data.gmod, Some(SET.to_string()));
    assert_eq!(app_data.gmad, None);
    assert_eq!(app_data.gmpublish, None);

    let search = app_data.find_gmod(search, DiscoveryReply::Located(Some(STEAM.to_string())));
    assert_eq!(search.request(), DiscoveryRequest::Probe { dir: STEAM.to_string() });
    let search = app_data.find_gmod(search, DiscoveryReply::Probed(probe(STEAM, true, true)));
    assert_eq!(search, Discovery::Done { found: Some(()) });
    assert_eq!(app_data.gmod, Some(STEAM.to_string()));
    assert_eq!(app_data.gmad, Some(format!("{}/gmad_linux", STEAM)));
    assert_eq!(app_data.gmpublish, Some(format!("{}/gmpublish_linux", STEAM)));
}

#[test]
fn settings_path_that_is_no_directory_is_passed_over() {
    let mut app_data = fresh(Some(SET));
    let search = Discovery::start(&app_data);
    let search = app_data.find_gmod(search, DiscoveryReply::IsDir(false));
    assert_eq!(search.request(), DiscoveryRequest::Locate);
    assert_eq!(app_data.gmod, None);
}

#[test]
fn without_a_settings_path_the_game_is_located() {
    let mut app_data = fresh(None);
    let search = Discovery::start(&app_data);
    assert_eq!(search.request(), DiscoveryRequest::Locate);
    let search = app_data.find_gmod(search, DiscoveryReply::Located(Some(STEAM.to_string())));
    let search = app_data.find_gmod(search, DiscoveryReply::Probed(probe(STEAM, false, true)));
    assert_eq!(search, Discovery::Done { found: Some(()) });
    assert_eq!(app_data.gmod, Some(STEAM.to_string()));
    assert_eq!(app_data.gmad, None);
    assert_eq!(app_data.gmpublish, None);
}

#[test]
fn a_game_that_is_not_installed_leaves_everything_unknown() {
    let mut app_data = fresh(None);
    let before = app_data.clone();
    let search = Discovery::start(&app_data);
    let search = app_data.find_gmod(search, DiscoveryReply::Located(None));
    assert_eq!(search, Discovery::Done { found: None });
    assert_eq!(app_data, before);
}

#[test]
fn settings_directory_stays_when_nothing_is_located() {
    let mut app_data = fresh(Some(SET));
    let search = Discovery::start(&app_data);
    let search = app_data.find_gmod(search, DiscoveryReply::IsDir(true));
    let search = app_data.find_gmod(search, DiscoveryReply::Probed(probe(SET, false, false)));
    let search = app_data.find_gmod(search, DiscoveryReply::Located(None));
    assert_eq!(search, Discovery::Done { found: None });
    assert_eq!(app_data.gmod, Some(SET.to_string()));
    assert_eq!(app_data.gmad, None);
}

#[test]
fn a_reply_to_another_request_is_ignored() {
    let mut app_data = fresh(Some(SET));
    let before = app_data.clone();
    let search = Discovery::start(&app_data);
    let search = app_data.find_gmod(search, DiscoveryReply::Located(Some(STEAM.to_string())));
    assert_eq!(search, Discovery::Settings { path: SET.to_string() });
    assert_eq!(app_data, before);
    let done = Discovery::Done { found: Some(()) };
    let done = app_data.find_gmod(done, DiscoveryReply::IsDir(true));
    assert_eq!(done, Discovery::Done { found: Some(()) });
    assert_eq!(app_data, before);
}

#[test]
fn game_identifier() {
    assert_eq!(GMOD_APP_ID, 4000);
}
