use vstd::prelude::*;

verus! {

/// The newspapers whose front-page feeds the news page can show.
#[derive(Debug, Clone, Copy, PartialEq, Eq, Structural)]
pub enum Newspaper {
    Lefigaro,
    Lemonde,
    Marianne,
}

/// Human-readable title of a newspaper.
pub open spec fn title_of(n: Newspaper) -> Seq<char> {
    match n {
        Newspaper::Lefigaro => "Le Figaro"@,
        Newspaper::Lemonde => "Le Monde"@,
        Newspaper::Marianne => "Marianne"@,
    }
}

/// Address of a newspaper's RSS feed.
pub open spec fn feed_url_of(n: Newspaper) -> Seq<char> {
    match n {
        Newspaper::Lefigaro => "https://www.lefigaro.fr/rss/figaro_actualites.xml"@,
        Newspaper::Lemonde => "https://www.lemonde.fr/rss/une.xml"@,
        Newspaper::Marianne => "https://www.marianne.net/rss.xml"@,
    }
}

impl Newspaper {
    /// Every newspaper, in the order the picker lists them.
    pub fn all() -> (r: [Newspaper; 3])
        ensures
            r@ == seq![Newspaper::Lefigaro, Newspaper::Lemonde, Newspaper::Marianne],
    {
        let r = [Newspaper::Lefigaro, Newspaper::Lemonde, Newspaper::Marianne];
        assert(r@ =~= seq![Newspaper::Lefigaro, Newspaper::Lemonde, Newspaper::Marianne]);
        r
    }

    /// The title shown in the picker.
    pub fn title(&self) -> (r: &'static str)
        ensures
            r@ == title_of(*self),
    {
        match self {
            Newspaper::Lefigaro => "Le Figaro",
            Newspaper::Lemonde => "Le Monde",
            Newspaper::Marianne => "Marianne",
        }
    }

    /// The address the news feed of this newspaper is fetched from.
    pub fn feed_url(&self) -> (r: &'static str)
        ensures
            r@ == feed_url_of(*self),
    {
        match self {
            Newspaper::Lefigaro => "https://www.lefigaro.fr/rss/figaro_actualites.xml",
            Newspaper::Lemonde => "https://www.lemonde.fr/rss/une.xml",
            Newspaper::Marianne => "https://www.marianne.net/rss.xml",
        }
    }
}

impl Default for Newspaper {
    fn default() -> (r: Newspaper)
        ensures
            r == Newspaper::Lefigaro,
    {
        Newspaper::Lefigaro
    }
}

/// One entry of a news feed; each part may be missing from the feed.
#[derive(Debug, Clone, PartialEq, Eq)]
pub struct NewsItem {
    pub title: Option<String>,
    pub pub_date: Option<String>,
    pub description: Option<String>,
}

/// The entries of a news feed, in feed order.
#[derive(Debug, Clone, PartialEq, Eq)]
pub struct NewsFeed {
    pub items: Vec<NewsItem>,
}

impl NewsFeed {
    /// A feed with no entries, shown when a fetch fails.
    pub fn empty() -> (r: NewsFeed)
        ensures
            r.items@ == Seq::<NewsItem>::empty(),
    {
        let r = NewsFeed { items: Vec::new() };
        assert(r.items@ =~= Seq::<NewsItem>::empty());
        r
    }
}

} // verus!
