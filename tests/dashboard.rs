use assistant::clock::LocalDateTime;
use assistant::dashboard::{AppState, Application, Fetch, Message, Page, SettingsField};
use assistant::news::{NewsFeed, NewsItem, Newspaper};
use assistant::state::{LoadError, SaveError, SavedState};
use assistant::weather::{FetchError, WeatherDocument, WeatherReport};

fn loaded(api_key: &str, city: &str) -> Application {
    let (mut app, _) = Application::new();
    app.dispatch(Message::Loaded(Ok(SavedState {
        weatherapi_value: api_key.to_string(),
        searchcity_value: city.to_string(),
    })));
    app
}

fn state(app: &Application) -> &AppState {
    match app {
        Application::Loaded(s) => s,
        Application::Loading => panic!("still loading"),
    }
}

fn feed(title: &str) -> NewsFeed {
    NewsFeed {
        items: vec![NewsItem {
            title: Some(title.to_string()),
            pub_date: None,
            description: None,
        }],
    }
}

fn noon() -> LocalDateTime {
    LocalDateTime { year: 2026, month: 10, day: 18, hour: 12, minute: 5, second: 9 }
}

#[test]
fn new_application_asks_for_load() {
    let (app, commands) = Application::new();
    assert!(matches!(app, Application::Loading));
    assert!(commands.load);
    assert!(commands.fetch.is_none());
    assert!(commands.save.is_none());
}

#[test]
fn messages_before_load_are_ignored() {
    let (mut app, _) = Application::new();
    let commands = app.dispatch(Message::Navigate(Page::News));
    assert!(matches!(app, Application::Loading));
    assert!(!commands.load && commands.fetch.is_none() && commands.save.is_none());
    let commands = app.dispatch(Message::Tick(noon()));
    assert!(matches!(app, Application::Loading));
    assert!(commands.save.is_none());
}

#[test]
fn load_success_keeps_settings() {
    let app = loaded("KEY", "Paris");
    let s = state(&app);
    assert_eq!(s.settings.weatherapi_value, "KEY");
    assert_eq!(s.settings.searchcity_value, "Paris");
    assert_eq!(s.active_page, Page::Clock);
    assert_eq!(s.weather_document, WeatherDocument::Absent);
    assert!(s.news_document.items.is_empty());
    assert_eq!(s.selected_source, Newspaper::Lefigaro);
    assert!(!s.dirty && !s.saving);
}

#[test]
fn failed_load_then_edit_then_save() {
    let (mut app, _) = Application::new();
    let commands = app.dispatch(Message::Loaded(Err(LoadError::OpenFileError)));
    assert!(commands.save.is_none());
    {
        let s = state(&app);
        assert_eq!(s.settings.weatherapi_value, "");
        assert_eq!(s.settings.searchcity_value, "");
        assert_eq!(s.active_page, Page::Clock);
        assert!(!s.dirty && !s.saving);
    }
    let commands =
        app.dispatch(Message::SettingsEdited(SettingsField::ApiKey, "XYZ".to_string()));
    {
        let s = state(&app);
        assert!(s.saving);
        assert!(!s.dirty);
    }
    let saved = commands.save.expect("a save is started");
    assert_eq!(saved.weatherapi_value, "XYZ");
    assert_eq!(saved.searchcity_value, "");
    let commands = app.dispatch(Message::SaveCompleted(Ok(())));
    assert!(commands.save.is_none());
    assert!(!state(&app).saving);
}

#[test]
fn later_source_selection_wins_but_last_feed_is_shown() {
    let mut app = loaded("", "");
    let first = app.dispatch(Message::NewsSourceSelected(Newspaper::Lemonde));
    assert!(matches!(first.fetch, Some(Fetch::News(Newspaper::Lemonde))));
    let second = app.dispatch(Message::NewsSourceSelected(Newspaper::Marianne));
    assert!(matches!(second.fetch, Some(Fetch::News(Newspaper::Marianne))));
    assert_eq!(state(&app).selected_source, Newspaper::Marianne);
    app.dispatch(Message::NewsFetched(Ok(feed("from Le Monde"))));
    assert_eq!(state(&app).news_document, feed("from Le Monde"));
    app.dispatch(Message::NewsFetched(Ok(feed("from Marianne"))));
    assert_eq!(state(&app).news_document, feed("from Marianne"));
    app.dispatch(Message::NewsFetched(Ok(feed("late Le Monde"))));
    assert_eq!(state(&app).news_document, feed("late Le Monde"));
    assert_eq!(state(&app).selected_source, Newspaper::Marianne);
}

#[test]
fn failed_news_fetch_gives_empty_feed() {
    let mut app = loaded("", "");
    app.dispatch(Message::NewsFetched(Ok(feed("one"))));
    app.dispatch(Message::NewsFetched(Err(FetchError::NetworkFailure)));
    assert!(state(&app).news_document.items.is_empty());
}

#[test]
fn news_request_fetches_selected_source() {
    let mut app = loaded("", "");
    app.dispatch(Message::NewsSourceSelected(Newspaper::Marianne));
    let commands = app.dispatch(Message::NewsRequested);
    assert!(matches!(commands.fetch, Some(Fetch::News(Newspaper::Marianne))));
    assert_eq!(state(&app).active_page, Page::News);
}

#[test]
fn edits_during_save_coalesce_into_one() {
    let mut app = loaded("", "");
    let first = app.dispatch(Message::SettingsEdited(SettingsField::ApiKey, "a".to_string()));
    assert!(first.save.is_some());
    for value in ["b", "c", "d", "e"] {
        let commands =
            app.dispatch(Message::SettingsEdited(SettingsField::SearchCity, value.to_string()));
        assert!(commands.save.is_none());
    }
    assert!(state(&app).dirty && state(&app).saving);
    let commands = app.dispatch(Message::SaveCompleted(Ok(())));
    let trailing = commands.save.expect("one trailing save");
    assert_eq!(trailing.weatherapi_value, "a");
    assert_eq!(trailing.searchcity_value, "e");
    let commands = app.dispatch(Message::SaveCompleted(Err(SaveError::WriteError)));
    assert!(commands.save.is_none());
    assert!(!state(&app).saving && !state(&app).dirty);
}

#[test]
fn tick_schedules_save_of_unchanged_settings() {
    let mut app = loaded("KEY", "Lyon");
    let commands = app.dispatch(Message::Tick(noon()));
    let saved = commands.save.expect("a tick marks the settings dirty");
    assert_eq!(saved.weatherapi_value, "KEY");
    assert_eq!(saved.searchcity_value, "Lyon");
    let commands = app.dispatch(Message::Tick(noon()));
    assert!(commands.save.is_none());
    assert!(state(&app).dirty);
}

#[test]
fn navigation_also_marks_dirty() {
    let mut app = loaded("", "");
    let commands = app.dispatch(Message::Navigate(Page::Settings));
    assert_eq!(state(&app).active_page, Page::Settings);
    assert!(commands.save.is_some());
}

#[test]
fn tick_formats_clock() {
    let mut app = loaded("", "");
    app.dispatch(Message::Tick(noon()));
    assert_eq!(state(&app).local_time, "12:05:09");
    assert_eq!(state(&app).local_date, "dimanche 18 octobre 2026");
}

#[test]
fn tick_with_impossible_day_keeps_date() {
    let mut app = loaded("", "");
    app.dispatch(Message::Tick(noon()));
    let bad = LocalDateTime { year: 2026, month: 2, day: 30, hour: 7, minute: 0, second: 0 };
    app.dispatch(Message::Tick(bad));
    assert_eq!(state(&app).local_date, "dimanche 18 octobre 2026");
    assert_eq!(state(&app).local_time, "07:00:00");
}

#[test]
fn clock_lines() {
    let t = LocalDateTime { year: 2021, month: 3, day: 1, hour: 0, minute: 0, second: 0 };
    assert_eq!(t.time_line().as_deref(), Some("00:00:00"));
    assert_eq!(t.date_line().as_deref(), Some("lundi  1 mars 2021"));
    let bad = LocalDateTime { year: 2021, month: 13, day: 1, hour: 24, minute: 0, second: 0 };
    assert!(bad.date_line().is_none());
    assert!(bad.time_line().is_none());
}

#[test]
fn weather_request_uses_settings() {
    let mut app = loaded("KEY", "Paris");
    let commands = app.dispatch(Message::WeatherRequested);
    match commands.fetch {
        Some(Fetch::Weather { city, api_key }) => {
            assert_eq!(city, "Paris");
            assert_eq!(api_key, "KEY");
        }
        _ => panic!("expected a weather fetch"),
    }
    assert_eq!(state(&app).active_page, Page::Weather);
}

#[test]
fn unauthorized_differs_from_network_failure() {
    let mut app = loaded("", "");
    app.dispatch(Message::WeatherFetched(Err(FetchError::Unauthorized)));
    assert_eq!(state(&app).weather_document, WeatherDocument::InvalidKey);
    app.dispatch(Message::WeatherFetched(Err(FetchError::NetworkFailure)));
    assert_eq!(state(&app).weather_document, WeatherDocument::Unavailable);
    app.dispatch(Message::WeatherFetched(Err(FetchError::ParseFailure)));
    assert_eq!(state(&app).weather_document, WeatherDocument::Unavailable);
    let report = WeatherReport {
        location: "Paris".to_string(),
        condition: "Clouds".to_string(),
        temp: 28815,
        temp_min: 27315,
        temp_max: 29000,
    };
    app.dispatch(Message::WeatherFetched(Ok(report.clone())));
    assert_eq!(state(&app).weather_document, WeatherDocument::Report(report));
}

#[test]
fn save_snapshot_reloads_identically() {
    let mut app = loaded("", "");
    app.dispatch(Message::SettingsEdited(SettingsField::ApiKey, "k-1".to_string()));
    app.dispatch(Message::SaveCompleted(Ok(())));
    let commands =
        app.dispatch(Message::SettingsEdited(SettingsField::SearchCity, "Nantes".to_string()));
    let saved = commands.save.expect("a save is started");
    let (mut again, _) = Application::new();
    again.dispatch(Message::Loaded(Ok(saved)));
    assert_eq!(state(&again).settings.weatherapi_value, "k-1");
    assert_eq!(state(&again).settings.searchcity_value, "Nantes");
}

#[test]
fn every_load_error_starts_empty() {
    for error in [LoadError::FileError, LoadError::OpenFileError, LoadError::FormatError] {
        let (mut app, _) = Application::new();
        assert!(!app.ticks_wanted());
        app.dispatch(Message::Loaded(Err(error)));
        assert!(app.ticks_wanted());
        let s = state(&app);
        assert_eq!(s.settings.weatherapi_value, "");
        assert_eq!(s.settings.searchcity_value, "");
        assert_eq!(s.active_page, Page::Clock);
    }
}

#[test]
fn second_load_result_is_ignored_once_loaded() {
    let mut app = loaded("KEY", "Paris");
    let commands = app.dispatch(Message::Loaded(Ok(SavedState {
        weatherapi_value: "other".to_string(),
        searchcity_value: "Rome".to_string(),
    })));
    assert_eq!(state(&app).settings.weatherapi_value, "KEY");
    assert_eq!(state(&app).settings.searchcity_value, "Paris");
    assert!(commands.save.is_some());
}

#[test]
fn every_save_error_is_dropped() {
    for error in [SaveError::FileError, SaveError::WriteError, SaveError::FormatError] {
        let mut app = loaded("", "");
        app.dispatch(Message::Navigate(Page::Clock));
        assert!(state(&app).saving);
        let commands = app.dispatch(Message::SaveCompleted(Err(error)));
        assert!(commands.save.is_none());
        assert!(!state(&app).saving && !state(&app).dirty);
    }
}
