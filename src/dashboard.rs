use vstd::prelude::*;
use crate::clock::{LocalDateTime, date_line_of, time_line_of};
use crate::news::{NewsFeed, NewsItem, Newspaper};
use crate::state::{LoadError, SaveError, SavedState, SettingsView, empty_settings};
use crate::weather::{FetchError, WeatherDocument, WeatherReport, document_of};

verus! {

/// The pages of the dashboard.
#[derive(Debug, Clone, Copy, PartialEq, Eq, Structural)]
pub enum Page {
    Clock,
    Weather,
    News,
    Settings,
}

/// The two fields of the settings form.
#[derive(Debug, Clone, Copy, PartialEq, Eq, Structural)]
pub enum SettingsField {
    ApiKey,
    SearchCity,
}

/// Everything that can happen to the dashboard: a user action, a clock
/// tick, or the outcome of a task.
#[derive(Debug)]
pub enum Message {
    Navigate(Page),
    SettingsEdited(SettingsField, String),
    WeatherRequested,
    WeatherFetched(Result<WeatherReport, FetchError>),
    NewsRequested,
    NewsSourceSelected(Newspaper),
    NewsFetched(Result<NewsFeed, FetchError>),
    Tick(LocalDateTime),
    SaveCompleted(Result<(), SaveError>),
    Loaded(Result<SavedState, LoadError>),
}

/// A fetch the host is asked to run; its outcome comes back as
/// `WeatherFetched` or `NewsFetched`.
#[derive(Debug, Clone)]
pub enum Fetch {
    Weather { city: String, api_key: String },
    News(Newspaper),
}

/// What a fetch asks for.
pub ghost enum FetchView {
    Weather { city: Seq<char>, api_key: Seq<char> },
    News(Newspaper),
}

impl View for Fetch {
    type V = FetchView;

    open spec fn view(&self) -> FetchView {
        match self {
            Fetch::Weather { city, api_key } => FetchView::Weather { city: city@, api_key: api_key@ },
            Fetch::News(n) => FetchView::News(*n),
        }
    }
}

/// The tasks that one dispatch hands to the host: the initial load, a
/// fetch, and a save of the given settings.
#[derive(Debug, Clone)]
pub struct Commands {
    pub load: bool,
    pub fetch: Option<Fetch>,
    pub save: Option<SavedState>,
}

pub ghost struct CommandsView {
    pub load: bool,
    pub fetch: Option<FetchView>,
    pub save: Option<SettingsView>,
}

pub open spec fn fetch_view(f: Option<Fetch>) -> Option<FetchView> {
    match f {
        Some(x) => Some(x@),
        None => None,
    }
}

pub open spec fn settings_view(s: Option<SavedState>) -> Option<SettingsView> {
    match s {
        Some(x) => Some(x@),
        None => None,
    }
}

impl View for Commands {
    type V = CommandsView;

    open spec fn view(&self) -> CommandsView {
        CommandsView { load: self.load, fetch: fetch_view(self.fetch), save: settings_view(self.save) }
    }
}

pub open spec fn no_commands() -> CommandsView {
    CommandsView { load: false, fetch: None, save: None }
}

impl Commands {
    pub fn none() -> (r: Commands)
        ensures
            r@ == no_commands(),
    {
        Commands { load: false, fetch: None, save: None }
    }
}

/// The live state of a loaded dashboard.
#[derive(Debug, Clone)]
pub struct AppState {
    pub active_page: Page,
    pub settings: SavedState,
    pub weather_document: WeatherDocument,
    pub news_document: NewsFeed,
    pub selected_source: Newspaper,
    pub local_date: String,
    pub local_time: String,
    /// The settings may have changed since the last save was started.
    pub dirty: bool,
    /// A save has been handed to the host and has not completed.
    pub saving: bool,
}

/// What a loaded dashboard holds.
pub ghost struct StateView {
    pub page: Page,
    pub settings: SettingsView,
    pub weather: WeatherDocument,
    pub news: Seq<NewsItem>,
    pub source: Newspaper,
    pub date: Seq<char>,
    pub time: Seq<char>,
    pub dirty: bool,
    pub saving: bool,
}

impl View for AppState {
    type V = StateView;

    open spec fn view(&self) -> StateView {
        StateView {
            page: self.active_page,
            settings: self.settings@,
            weather: self.weather_document,
            news: self.news_document.items@,
            source: self.selected_source,
            date: self.local_date@,
            time: self.local_time@,
            dirty: self.dirty,
            saving: self.saving,
        }
    }
}

/// The state a dashboard starts from once its settings are known: the clock
/// page, nothing fetched, the first newspaper, no save pending.
pub open spec fn initial_state(settings: SettingsView) -> StateView {
    StateView {
        page: Page::Clock,
        settings,
        weather: WeatherDocument::Absent,
        news: Seq::empty(),
        source: Newspaper::Lefigaro,
        date: Seq::empty(),
        time: Seq::empty(),
        dirty: false,
        saving: false,
    }
}

/// The settings after one field of the form is edited.
pub open spec fn edited(s: SettingsView, field: SettingsField, value: Seq<char>) -> SettingsView {
    match field {
        SettingsField::ApiKey => SettingsView { api_key: value, ..s },
        SettingsField::SearchCity => SettingsView { search_city: value, ..s },
    }
}

/// The effect of one message on a loaded dashboard, before the save policy
/// runs, and the fetch it asks for.
pub open spec fn reduced(s: StateView, m: Message) -> (StateView, Option<FetchView>) {
    match m {
        Message::Navigate(p) => (StateView { page: p, ..s }, None),
        Message::SettingsEdited(f, v) => (StateView { settings: edited(s.settings, f, v@), ..s }, None),
        Message::WeatherRequested => (
            StateView { page: Page::Weather, ..s },
            Some(FetchView::Weather { city: s.settings.search_city, api_key: s.settings.api_key }),
        ),
        Message::WeatherFetched(r) => (StateView { weather: document_of(r), ..s }, None),
        Message::NewsRequested => (StateView { page: Page::News, ..s }, Some(FetchView::News(s.source))),
        Message::NewsSourceSelected(n) => (StateView { source: n, ..s }, Some(FetchView::News(n))),
        Message::NewsFetched(r) => (
            StateView {
                news: match r {
                    Ok(feed) => feed.items@,
                    Err(_) => Seq::empty(),
                },
                ..s
            },
            None,
        ),
        Message::Tick(now) => (
            StateView {
                date: match date_line_of(now) {
                    Some(t) => t,
                    None => s.date,
                },
                time: match time_line_of(now) {
                    Some(t) => t,
                    None => s.time,
                },
                ..s
            },
            None,
        ),
        Message::SaveCompleted(_) => (StateView { saving: false, ..s }, None),
        Message::Loaded(_) => (s, None),
    }
}

/// Which messages mark the settings as possibly changed. Every message does
/// but the completion of a save: a coarse rule that makes a tick or a page
/// change schedule a save of unchanged settings.
pub open spec fn marks_dirty(m: Message) -> bool {
    !(m is SaveCompleted)
}

/// The save policy that runs after every message: when the settings may have
/// changed and no save is running, start one with the current settings.
pub open spec fn scheduled(s: StateView, dirtied: bool) -> (StateView, Option<SettingsView>) {
    let dirty = s.dirty || dirtied;
    if dirty && !s.saving {
        (StateView { dirty: false, saving: true, ..s }, Some(s.settings))
    } else {
        (StateView { dirty, ..s }, None)
    }
}

/// One message on a loaded dashboard: the message itself, then the save
/// policy.
pub open spec fn step(s: StateView, m: Message) -> (StateView, CommandsView) {
    let (r, fetch) = reduced(s, m);
    let (t, save) = scheduled(r, marks_dirty(m));
    (t, CommandsView { load: false, fetch, save })
}

/// The dashboard: still waiting for its settings, or running.
#[derive(Debug, Clone)]
pub enum Application {
    Loading,
    Loaded(AppState),
}

impl View for Application {
    /// `None` while loading.
    type V = Option<StateView>;

    open spec fn view(&self) -> Option<StateView> {
        match self {
            Application::Loading => None,
            Application::Loaded(s) => Some(s@),
        }
    }
}

/// One message on the dashboard. While loading only the load outcome counts,
/// and a failed load starts from empty settings.
pub open spec fn dispatched(a: Option<StateView>, m: Message) -> (Option<StateView>, CommandsView) {
    match a {
        None => match m {
            Message::Loaded(Ok(saved)) => (Some(initial_state(saved@)), no_commands()),
            Message::Loaded(Err(_)) => (Some(initial_state(empty_settings())), no_commands()),
            _ => (None, no_commands()),
        },
        Some(s) => {
            let (t, c) = step(s, m);
            (Some(t), c)
        },
    }
}

/// Whether a message counts toward the save policy; the one place where that
/// rule is decided.
pub fn message_marks_dirty(m: &Message) -> (r: bool)
    ensures
        r == marks_dirty(*m),
{
    match m {
        Message::SaveCompleted(_) => false,
        _ => true,
    }
}

impl AppState {
    /// The state a dashboard starts from with the given settings.
    pub fn from_saved(settings: SavedState) -> (r: AppState)
        ensures
            r@ == initial_state(settings@),
    {
        let r = AppState {
            active_page: Page::Clock,
            settings,
            weather_document: WeatherDocument::Absent,
            news_document: NewsFeed::empty(),
            selected_source: Newspaper::Lefigaro,
            local_date: String::new(),
            local_time: String::new(),
            dirty: false,
            saving: false,
        };
        assert(r@.news =~= Seq::<NewsItem>::empty());
        assert(r@ == initial_state(settings@));
        r
    }

    /// Applies one message, and gives the fetch it asks for.
    pub fn reduce(&mut self, message: Message) -> (r: Option<Fetch>)
        ensures
            (final(self)@, fetch_view(r)) == reduced(old(self)@, message),
    {
        match message {
            Message::Navigate(page) => {
                self.active_page = page;
                None
            },
            Message::SettingsEdited(field, value) => {
                match field {
                    SettingsField::ApiKey => self.settings.weatherapi_value = value,
                    SettingsField::SearchCity => self.settings.searchcity_value = value,
                }
                None
            },
            Message::WeatherRequested => {
                let fetch = Fetch::Weather {
                    city: self.settings.searchcity_value.clone(),
                    api_key: self.settings.weatherapi_value.clone(),
                };
                self.active_page = Page::Weather;
                Some(fetch)
            },
            Message::WeatherFetched(result) => {
                self.weather_document = WeatherDocument::from_result(result);
                None
            },
            Message::NewsRequested => {
                self.active_page = Page::News;
                Some(Fetch::News(self.selected_source))
            },
            Message::NewsSourceSelected(newspaper) => {
                self.selected_source = newspaper;
                Some(Fetch::News(newspaper))
            },
            Message::NewsFetched(result) => {
                self.news_document = match result {
                    Ok(feed) => feed,
                    Err(_) => NewsFeed::empty(),
                };
                None
            },
            Message::Tick(now) => {
                if let Some(d) = now.date_line() {
                    self.local_date = d;
                }
                if let Some(t) = now.time_line() {
                    self.local_time = t;
                }
                None
            },
            Message::SaveCompleted(_) => {
                self.saving = false;
                None
            },
            Message::Loaded(_) => None,
        }
    }

    /// The save policy: records that the settings may have changed, and
    /// starts a save of the current settings when none is running.
    pub fn schedule_save(&mut self, dirtied: bool) -> (r: Option<SavedState>)
        ensures
            (final(self)@, settings_view(r)) == scheduled(old(self)@, dirtied),
    {
        if dirtied {
            self.dirty = true;
        }
        if self.dirty && !self.saving {
            self.dirty = false;
            self.saving = true;
            Some(self.settings.snapshot())
        } else {
            None
        }
    }
}

impl Application {
    /// A dashboard waiting for its settings, and the load the host must run.
    pub fn new() -> (r: (Application, Commands))
        ensures
            r.0@ is None,
            r.1@ == (CommandsView { load: true, fetch: None, save: None }),
    {
        (Application::Loading, Commands { load: true, fetch: None, save: None })
    }

    /// Whether the clock should be ticking: from the moment the dashboard is
    /// loaded.
    pub fn ticks_wanted(&self) -> (r: bool)
        ensures
            r == (self@ is Some),
    {
        match self {
            Application::Loading => false,
            Application::Loaded(_) => true,
        }
    }

    /// Handles one message and gives the tasks the host must run.
    pub fn dispatch(&mut self, message: Message) -> (r: Commands)
        ensures
            (final(self)@, r@) == dispatched(old(self)@, message),
    {
        match self {
            Application::Loading => {
                match message {
                    Message::Loaded(Ok(saved)) => {
                        *self = Application::Loaded(AppState::from_saved(saved));
                    },
                    Message::Loaded(Err(_)) => {
                        *self = Application::Loaded(AppState::from_saved(SavedState::empty()));
                    },
                    _ => {},
                }
                Commands::none()
            },
            Application::Loaded(state) => {
                let dirtied = message_marks_dirty(&message);
                let fetch = state.reduce(message);
                let save = state.schedule_save(dirtied);
                Commands { load: false, fetch, save }
            },
        }
    }
}

} // verus!
