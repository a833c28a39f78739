use vstd::prelude::*;

verus! {

/// Geographic granularity of a regional report.
#[derive(Debug, Clone, Copy, PartialEq, Eq, Structural)]
pub enum Resolution {
    Country,
    City,
    Dma,
}

/// The wire token of a resolution.
pub open spec fn resolution_token(r: Resolution) -> Seq<char> {
    match r {
        Resolution::Country => "COUNTRY"@,
        Resolution::City => "CITY"@,
        Resolution::Dma => "DMA"@,
    }
}

impl Resolution {
    /// The fixed upper-case token the service expects for this resolution.
    pub fn wire_token(&self) -> (r: &'static str)
        ensures
            r@ == resolution_token(*self),
    {
        match self {
            Resolution::Country => "COUNTRY",
            Resolution::City => "CITY",
            Resolution::Dma => "DMA",
        }
    }
}


/// The search property a report is drawn from.
#[derive(Debug, Clone, Copy, PartialEq, Eq, Structural)]
pub enum Source {
    Search,
    Images,
    News,
    Videos,
    Shopping,
}

/// The wire token of a source; web search is the empty token.
pub open spec fn source_token(s: Source) -> Seq<char> {
    match s {
        Source::Search => ""@,
        Source::Images => "images"@,
        Source::News => "news"@,
        Source::Videos => "youtube"@,
        Source::Shopping => "froogle"@,
    }
}

impl Source {
    /// The fixed lower-case token the service expects for this source.
    pub fn wire_token(&self) -> (r: &'static str)
        ensures
            r@ == source_token(*self),
    {
        match self {
            Source::Search => "",
            Source::Images => "images",
            Source::News => "news",
            Source::Videos => "youtube",
            Source::Shopping => "froogle",
        }
    }
}

/// Topic filter of a query.
#[derive(Debug, Clone, Copy, PartialEq, Eq, Structural)]
pub enum Category {
    All,
    Entertainment,
    Electronics,
    Finance,
    Games,
    Home,
    Business,
    Internet,
    Society,
    News,
    Shopping,
    Law,
    Sports,
    Literature,
    RealEstate,
    Fitness,
    Health,
    Vehicles,
    Hobbies,
    Pets,
    Travel,
    Food,
    Science,
    Communities,
    Reference,
    Education,
}

/// The stable numeric code of a category.
pub open spec fn category_code(c: Category) -> u32 {
    match c {
        Category::All => 0,
        Category::Entertainment => 3,
        Category::Electronics => 5,
        Category::Finance => 7,
        Category::Games => 8,
        Category::Home => 11,
        Category::Business => 12,
        Category::Internet => 13,
        Category::Society => 14,
        Category::News => 16,
        Category::Shopping => 18,
        Category::Law => 19,
        Category::Sports => 20,
        Category::Literature => 22,
        Category::RealEstate => 29,
        Category::Fitness => 44,
        Category::Health => 45,
        Category::Vehicles => 47,
        Category::Hobbies => 65,
        Category::Pets => 66,
        Category::Travel => 67,
        Category::Food => 71,
        Category::Science => 174,
        Category::Communities => 299,
        Category::Reference => 533,
        Category::Education => 958,
    }
}

impl Category {
    /// The numeric code the service expects for this category.
    pub fn code(&self) -> (r: u32)
        ensures
            r == category_code(*self),
    {
        match self {
            Category::All => 0,
            Category::Entertainment => 3,
            Category::Electronics => 5,
            Category::Finance => 7,
            Category::Games => 8,
            Category::Home => 11,
            Category::Business => 12,
            Category::Internet => 13,
            Category::Society => 14,
            Category::News => 16,
            Category::Shopping => 18,
            Category::Law => 19,
            Category::Sports => 20,
            Category::Literature => 22,
            Category::RealEstate => 29,
            Category::Fitness => 44,
            Category::Health => 45,
            Category::Vehicles => 47,
            Category::Hobbies => 65,
            Category::Pets => 66,
            Category::Travel => 67,
            Category::Food => 71,
            Category::Science => 174,
            Category::Communities => 299,
            Category::Reference => 533,
            Category::Education => 958,
        }
    }
}

/// The report widget a caller asks for.
#[derive(Debug, Clone, Copy, PartialEq, Eq, Structural)]
pub enum SearchType {
    TimeSeries,
    Region,
    RelatedTopics,
    RelatedQueries,
}

/// The widget-type identifier the explore response uses for a report.
pub open spec fn widget_id(s: SearchType) -> Seq<char> {
    match s {
        SearchType::TimeSeries => "TIMESERIES"@,
        SearchType::Region => "GEO_MAP"@,
        SearchType::RelatedTopics => "RELATED_TOPICS"@,
        SearchType::RelatedQueries => "RELATED_QUERIES"@,
    }
}

/// The widget-data endpoint that serves a report.
pub open spec fn endpoint_url(s: SearchType) -> Seq<char> {
    match s {
        SearchType::TimeSeries => "https://trends.google.com/trends/api/widgetdata/multiline"@,
        SearchType::Region => "https://trends.google.com/trends/api/widgetdata/comparedgeo"@,
        SearchType::RelatedTopics => "https://trends.google.com/trends/api/widgetdata/relatedsearches"@,
        SearchType::RelatedQueries => "https://trends.google.com/trends/api/widgetdata/relatedsearches"@,
    }
}

impl SearchType {
    /// The widget-type identifier bound to this report.
    pub fn widget_id(&self) -> (r: &'static str)
        ensures
            r@ == widget_id(*self),
    {
        match self {
            SearchType::TimeSeries => "TIMESERIES",
            SearchType::Region => "GEO_MAP",
            SearchType::RelatedTopics => "RELATED_TOPICS",
            SearchType::RelatedQueries => "RELATED_QUERIES",
        }
    }

    /// The URL from which this report's data is fetched.
    pub fn endpoint(&self) -> (r: &'static str)
        ensures
            r@ == endpoint_url(*self),
    {
        match self {
            SearchType::TimeSeries => "https://trends.google.com/trends/api/widgetdata/multiline",
            SearchType::Region => "https://trends.google.com/trends/api/widgetdata/comparedgeo",
            SearchType::RelatedTopics => "https://trends.google.com/trends/api/widgetdata/relatedsearches",
            SearchType::RelatedQueries => "https://trends.google.com/trends/api/widgetdata/relatedsearches",
        }
    }
}

/// The URL of the explore call.
pub open spec fn explore_url_spec() -> Seq<char> {
    "https://trends.google.com/trends/api/explore"@
}

/// The URL of the explore call, which yields the widget descriptors.
pub fn explore_url() -> (r: &'static str)
    ensures
        r@ == explore_url_spec(),
{
    "https://trends.google.com/trends/api/explore"
}

} // verus!
