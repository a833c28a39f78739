use vstd::prelude::*;
use crate::date::{Timeframe, timeframe_text};
use crate::json::{JsonValue, decimal, is_number_text, is_text};
use crate::types::{Category, Source, category_code, source_token};

verus! {

/// One search term of a query, with an optional region and its time window.
#[derive(Debug, Clone)]
pub struct QueryItem {
    keyword: String,
    geo: Option<String>,
    time: Timeframe,
}

/// What `geo` holds, as text.
pub open spec fn geo_view(geo: Option<String>) -> Option<Seq<char>> {
    match geo {
        Some(g) => Some(g@),
        None => None,
    }
}

/// Whether `v` is the wire form of an item with these keyword, region and
/// time text: members `keyword`, `geo` (null without a region) and `time`,
/// in that order.
pub open spec fn item_wire(
    v: JsonValue,
    keyword: Seq<char>,
    geo: Option<Seq<char>>,
    time: Seq<char>,
) -> bool {
    &&& v matches JsonValue::Object(m)
    &&& m@.len() == 3
    &&& m@[0].0@ == "keyword"@
    &&& is_text(m@[0].1, keyword)
    &&& m@[1].0@ == "geo"@
    &&& match geo {
        Some(g) => is_text(m@[1].1, g),
        None => m@[1].1 == JsonValue::Null,
    }
    &&& m@[2].0@ == "time"@
    &&& is_text(m@[2].1, time)
}

impl QueryItem {
    /// The search term.
    pub closed spec fn keyword_spec(&self) -> Seq<char> {
        self.keyword@
    }

    /// The region code, if the item is restricted to one.
    pub closed spec fn geo_spec(&self) -> Option<Seq<char>> {
        geo_view(self.geo)
    }

    /// The time window.
    pub closed spec fn time_spec(&self) -> Timeframe {
        self.time
    }

    /// The text that the item's time window is sent as.
    pub open spec fn time_text(&self) -> Seq<char> {
        timeframe_text(self.time_spec().start_spec(), self.time_spec().end_spec())
    }

    /// A worldwide item.
    pub fn by_keyword(keyword: &str, time: Timeframe) -> (r: QueryItem)
        ensures
            r.keyword_spec() == keyword@,
            r.geo_spec() is None,
            r.time_spec() == time,
    {
        QueryItem { keyword: keyword.to_owned(), geo: None, time }
    }

    /// An item restricted to the region with code `region`.
    pub fn by_keyword_with_geo(keyword: &str, region: &str, time: Timeframe) -> (r: QueryItem)
        ensures
            r.keyword_spec() == keyword@,
            r.geo_spec() == Some(region@),
            r.time_spec() == time,
    {
        QueryItem { keyword: keyword.to_owned(), geo: Some(region.to_owned()), time }
    }

    /// The search term.
    pub fn keyword(&self) -> (r: &str)
        ensures
            r@ == self.keyword_spec(),
    {
        self.keyword.as_str()
    }

    /// The item as the service expects it.
    pub fn to_wire(&self) -> (r: JsonValue)
        ensures
            item_wire(r, self.keyword_spec(), self.geo_spec(), self.time_text()),
    {
        let geo = match &self.geo {
            Some(g) => JsonValue::Str(g.clone()),
            None => JsonValue::Null,
        };
        let mut m: Vec<(String, JsonValue)> = Vec::new();
        m.push((String::from_str("keyword"), JsonValue::Str(self.keyword.clone())));
        m.push((String::from_str("geo"), geo));
        m.push((String::from_str("time"), JsonValue::Str(self.time.formatted())));
        JsonValue::Object(m)
    }
}

/// A comparison of one or more search terms.
#[derive(Debug)]
pub struct Query {
    comparison_item: Vec<QueryItem>,
    category: Category,
    property: Source,
}

/// Whether `v` is the wire form of a query with these items, category and
/// source: members `comparisonItem`, `category` and `property`, in that
/// order.
pub open spec fn query_wire(v: JsonValue, items: Seq<QueryItem>, c: Category, s: Source) -> bool {
    &&& v matches JsonValue::Object(m)
    &&& m@.len() == 3
    &&& m@[0].0@ == "comparisonItem"@
    &&& m@[0].1 matches JsonValue::Array(a)
    &&& a@.len() == items.len()
    &&& forall|i: int|
        0 <= i < items.len() ==> item_wire(
            #[trigger] a@[i],
            items[i].keyword_spec(),
            items[i].geo_spec(),
            items[i].time_text(),
        )
    &&& m@[1].0@ == "category"@
    &&& is_number_text(m@[1].1, decimal(category_code(c) as nat))
    &&& m@[2].0@ == "property"@
    &&& is_text(m@[2].1, source_token(s))
}

impl Clone for Query {
    fn clone(&self) -> (r: Query) {
        proof {
            use_type_invariant(self);
        }
        Query {
            comparison_item: self.comparison_item.clone(),
            category: self.category,
            property: self.property,
        }
    }
}

impl Query {
    #[verifier::type_invariant]
    spec fn inv(&self) -> bool {
        self.comparison_item@.len() > 0
    }

    /// The compared items.
    pub closed spec fn items_spec(&self) -> Seq<QueryItem> {
        self.comparison_item@
    }

    /// The topic filter.
    pub closed spec fn category_spec(&self) -> Category {
        self.category
    }

    /// The search property.
    pub closed spec fn property_spec(&self) -> Source {
        self.property
    }

    /// A query over `items`, for all categories and web search; there is
    /// none without an item.
    pub fn new(items: Vec<QueryItem>) -> (r: Option<Query>)
        ensures
            r is Some <==> items@.len() > 0,
            r matches Some(q) ==> q.items_spec() == items@ && q.category_spec() == Category::All
                && q.property_spec() == Source::Search,
    {
        if items.len() == 0 {
            None
        } else {
            Some(Query { comparison_item: items, category: Category::All, property: Source::Search })
        }
    }

    /// A query for a single worldwide term.
    pub fn by_keyword(keyword: String, time: Timeframe) -> (r: Query)
        ensures
            r.items_spec().len() == 1,
            r.items_spec()[0].keyword_spec() == keyword@,
            r.items_spec()[0].geo_spec() is None,
            r.items_spec()[0].time_spec() == time,
            r.category_spec() == Category::All,
            r.property_spec() == Source::Search,
    {
        let mut items: Vec<QueryItem> = Vec::new();
        items.push(QueryItem::by_keyword(keyword.as_str(), time));
        Query { comparison_item: items, category: Category::All, property: Source::Search }
    }

    /// The compared items, in order.
    pub fn items(&self) -> (r: &[QueryItem])
        ensures
            r@ == self.items_spec(),
            r@.len() > 0,
    {
        proof {
            use_type_invariant(self);
        }
        self.comparison_item.as_slice()
    }

    /// The query as the service expects it in the explore call.
    pub fn to_wire(&self) -> (r: JsonValue)
        ensures
            query_wire(r, self.items_spec(), self.category_spec(), self.property_spec()),
    {
        let mut a: Vec<JsonValue> = Vec::new();
        let mut i: usize = 0;
        while i < self.comparison_item.len()
            invariant
                i <= self.comparison_item@.len(),
                a@.len() == i,
                forall|j: int|
                    0 <= j < i ==> item_wire(
                        #[trigger] a@[j],
                        self.comparison_item@[j].keyword_spec(),
                        self.comparison_item@[j].geo_spec(),
                        self.comparison_item@[j].time_text(),
                    ),
            decreases self.comparison_item.len() - i,
        {
            a.push(self.comparison_item[i].to_wire());
            i = i + 1;
        }
        let mut m: Vec<(String, JsonValue)> = Vec::new();
        m.push((String::from_str("comparisonItem"), JsonValue::Array(a)));
        m.push((String::from_str("category"), JsonValue::unsigned(self.category.code())));
        m.push((String::from_str("property"), JsonValue::text(self.property.wire_token())));
        JsonValue::Object(m)
    }
}

} // verus!
