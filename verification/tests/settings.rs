use beatmap_downloader::settings::{
    search_backend, ConfigApp, ConfigError, SearchBackend, ServerList,
};

#[test]
fn defaults_of_a_first_start() {
    let app = ConfigApp::new();
    let config = app.config();
    assert_eq!(config.client_id, 0);
    assert_eq!(config.client_secret, "");
    assert_eq!(config.search_client, "nerinyan");
    assert_eq!(config.songs_path, "");
    assert_eq!(config.number_of_fetch, 250);
    assert_eq!(config.selected_server, "nerinyan");
    assert_eq!(config.number_of_simultaneous_downloads, 5);
    assert_eq!(config.server.len(), 5);
    let expect = |name: &str, template: &str| {
        assert_eq!(config.server.get(name), Some(&template.to_string()));
    };
    expect("beatconnect", "https://beatconnect.io/b/{beatmap_id}");
    expect("nerinyan", "https://api.nerinyan.moe/d/{beatmap_id}");
    expect("osu_direct", "https://osu.direct/api/d/{beatmap_id}");
    expect("catboy", "https://catboy.best/d/{beatmap_id}");
    expect("osu_ppy", "https://osu.ppy.sh/beatmapsets/{beatmap_id}/download");
    assert_eq!(config.server.get("unknown"), None);
}

#[test]
fn default_selection_has_a_template() {
    let config = ConfigApp::new().into_config();
    assert!(config.server.get(config.selected_server.as_str()).is_some());
    assert_eq!(search_backend(config.search_client.as_str()), Ok(SearchBackend::Nerinyan));
}

#[test]
fn settings_can_be_edited() {
    let mut app = ConfigApp::new();
    app.set_search_client("osu_api".to_string());
    app.set_songs_path("/songs".to_string());
    app.set_credentials(42, "s3".to_string());
    let config = app.into_config();
    assert_eq!(config.search_client, "osu_api");
    assert_eq!(config.songs_path, "/songs");
    assert_eq!(config.client_id, 42);
    assert_eq!(config.client_secret, "s3");
    assert_eq!(config.number_of_fetch, 250);
    assert_eq!(config.server.len(), 5);
}

#[test]
fn backend_by_name() {
    assert_eq!(search_backend("nerinyan"), Ok(SearchBackend::Nerinyan));
    assert_eq!(search_backend("osu"), Ok(SearchBackend::Osu));
    assert_eq!(search_backend("osu_api"), Ok(SearchBackend::OsuApi));
    assert_eq!(search_backend(""), Err(ConfigError::UnknownClient));
    assert_eq!(search_backend("Osu"), Err(ConfigError::UnknownClient));
    assert_eq!(search_backend("osu "), Err(ConfigError::UnknownClient));
    assert_eq!(search_backend("catboy"), Err(ConfigError::UnknownClient));
}

#[test]
fn only_the_native_client_needs_credentials() {
    assert!(!SearchBackend::Nerinyan.needs_credentials());
    assert!(!SearchBackend::Osu.needs_credentials());
    assert!(SearchBackend::OsuApi.needs_credentials());
}

#[test]
fn server_list_keeps_the_last_entry_of_a_name() {
    let mut list = ServerList::new();
    assert_eq!(list.len(), 0);
    assert_eq!(list.get("a"), None);
    list.insert("a".to_string(), "http://a/{beatmap_id}".to_string());
    list.insert("b".to_string(), "http://b/{beatmap_id}".to_string());
    list.insert("a".to_string(), "http://a2/{beatmap_id}".to_string());
    assert_eq!(list.get("a"), Some(&"http://a2/{beatmap_id}".to_string()));
    assert_eq!(list.get("b"), Some(&"http://b/{beatmap_id}".to_string()));
    assert_eq!(list.get("c"), None);
    assert_eq!(list.len(), 3);
    assert_eq!(list.name_at(1), "b");
}
