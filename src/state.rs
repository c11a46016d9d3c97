use vstd::prelude::*;

verus! {

/// The settings that outlive the process: the weather service key and the
/// city whose weather is shown.
#[derive(Debug, Clone)]
pub struct SavedState {
    pub weatherapi_value: String,
    pub searchcity_value: String,
}

/// What a settings record holds, as text.
pub ghost struct SettingsView {
    pub api_key: Seq<char>,
    pub search_city: Seq<char>,
}

impl View for SavedState {
    type V = SettingsView;

    open spec fn view(&self) -> SettingsView {
        SettingsView { api_key: self.weatherapi_value@, search_city: self.searchcity_value@ }
    }
}

/// The settings a first run starts from: both fields empty.
pub open spec fn empty_settings() -> SettingsView {
    SettingsView { api_key: Seq::empty(), search_city: Seq::empty() }
}

impl SavedState {
    /// A record with both fields empty.
    pub fn empty() -> (r: SavedState)
        ensures
            r@ == empty_settings(),
    {
        let r = SavedState { weatherapi_value: String::new(), searchcity_value: String::new() };
        assert(r@ =~= empty_settings());
        r
    }

    /// A copy of the record.
    pub fn snapshot(&self) -> (r: SavedState)
        ensures
            r == *self,
    {
        SavedState {
            weatherapi_value: self.weatherapi_value.clone(),
            searchcity_value: self.searchcity_value.clone(),
        }
    }
}

/// Why the stored settings could not be read.
#[derive(Debug, Clone, Copy, PartialEq, Eq, Structural)]
pub enum LoadError {
    FileError,
    OpenFileError,
    FormatError,
}

/// Why the settings could not be stored.
#[derive(Debug, Clone, Copy, PartialEq, Eq, Structural)]
pub enum SaveError {
    FileError,
    WriteError,
    FormatError,
}

} // verus!
