use trends::date::{CalendarDate, Timeframe};
use trends::error::TrendsError;
use trends::json::{decimal_text, JsonValue};
use trends::query::{Query, QueryItem};
use trends::series::TimeSeriesEntry;
use trends::transport::{
    cookie_from_header, strip_explore_guard, strip_guard, strip_widget_guard, RetryPhase,
    RetryStep,
};
use trends::types::{explore_url, Category, Resolution, SearchType, Source};
use trends::widget::{
    prepare_region, prepare_time_series, ExploreResponse, Feature, RequestParameters,
};

fn date(y: i32, m: u32, d: u32) -> CalendarDate {
    CalendarDate::new(y, m, d).expect("valid date")
}

fn text(s: &str) -> JsonValue {
    JsonValue::Str(s.to_string())
}

fn member<'a>(v: &'a JsonValue, key: &str) -> Option<&'a JsonValue> {
    match v {
        JsonValue::Object(m) => m.iter().rev().find(|(k, _)| k == key).map(|(_, v)| v),
        _ => None,
    }
}

fn text_of(v: Option<&JsonValue>) -> Option<&str> {
    match v {
        Some(JsonValue::Str(s)) => Some(s.as_str()),
        _ => None,
    }
}

fn number_of(v: Option<&JsonValue>) -> Option<&str> {
    match v {
        Some(JsonValue::Number(s)) => Some(s.as_str()),
        _ => None,
    }
}

fn data_request(id: &str, token: &str) -> Feature {
    Feature::DataRequest(RequestParameters {
        token: token.to_string(),
        id: id.to_string(),
        request: JsonValue::Object(vec![("time".to_string(), text("2014-01-01 2020-01-01"))]),
    })
}

fn other(id: &str) -> Feature {
    Feature::Other { id: id.to_string() }
}

#[test]
fn resolution_tokens() {
    assert_eq!(Resolution::Country.wire_token(), "COUNTRY");
    assert_eq!(Resolution::City.wire_token(), "CITY");
    assert_eq!(Resolution::Dma.wire_token(), "DMA");
}

#[test]
fn source_tokens() {
    assert_eq!(Source::Search.wire_token(), "");
    assert_eq!(Source::Images.wire_token(), "images");
    assert_eq!(Source::News.wire_token(), "news");
    assert_eq!(Source::Videos.wire_token(), "youtube");
    assert_eq!(Source::Shopping.wire_token(), "froogle");
}

#[test]
fn category_codes() {
    let expected = [
        (Category::All, 0),
        (Category::Entertainment, 3),
        (Category::Electronics, 5),
        (Category::Finance, 7),
        (Category::Games, 8),
        (Category::Home, 11),
        (Category::Business, 12),
        (Category::Internet, 13),
        (Category::Society, 14),
        (Category::News, 16),
        (Category::Shopping, 18),
        (Category::Law, 19),
        (Category::Sports, 20),
        (Category::Literature, 22),
        (Category::RealEstate, 29),
        (Category::Fitness, 44),
        (Category::Health, 45),
        (Category::Vehicles, 47),
        (Category::Hobbies, 65),
        (Category::Pets, 66),
        (Category::Travel, 67),
        (Category::Food, 71),
        (Category::Science, 174),
        (Category::Communities, 299),
        (Category::Reference, 533),
        (Category::Education, 958),
    ];
    for (c, code) in expected {
        assert_eq!(c.code(), code);
        assert_eq!(JsonValue::unsigned(c.code()), JsonValue::Number(code.to_string()));
    }
}

#[test]
fn widget_ids_and_endpoints() {
    assert_eq!(SearchType::TimeSeries.widget_id(), "TIMESERIES");
    assert_eq!(SearchType::Region.widget_id(), "GEO_MAP");
    assert_eq!(SearchType::RelatedTopics.widget_id(), "RELATED_TOPICS");
    assert_eq!(SearchType::RelatedQueries.widget_id(), "RELATED_QUERIES");
    assert_eq!(
        SearchType::TimeSeries.endpoint(),
        "https://trends.google.com/trends/api/widgetdata/multiline"
    );
    assert_eq!(
        SearchType::Region.endpoint(),
        "https://trends.google.com/trends/api/widgetdata/comparedgeo"
    );
    assert_eq!(
        SearchType::RelatedTopics.endpoint(),
        "https://trends.google.com/trends/api/widgetdata/relatedsearches"
    );
    assert_eq!(
        SearchType::RelatedQueries.endpoint(),
        "https://trends.google.com/trends/api/widgetdata/relatedsearches"
    );
    assert_eq!(explore_url(), "https://trends.google.com/trends/api/explore");
}

#[test]
fn decimal_text_values() {
    assert_eq!(decimal_text(0), "0");
    assert_eq!(decimal_text(7), "7");
    assert_eq!(decimal_text(958), "958");
    assert_eq!(decimal_text(1000), "1000");
    assert_eq!(decimal_text(u32::MAX), "4294967295");
}

#[test]
fn timeframe_formats_both_dates() {
    let t = Timeframe::new(date(2014, 1, 1), date(2020, 5, 9));
    assert_eq!(t.formatted(), "2014-01-01 2020-05-09");
}

#[test]
fn timeframe_pads_short_years() {
    let t = Timeframe::new(date(999, 3, 4), date(12, 11, 30));
    assert_eq!(t.formatted(), "0999-03-04 0012-11-30");
}

#[test]
fn timeframe_default_ends_today() {
    let t = Timeframe::default();
    let today = CalendarDate::today();
    let text = t.formatted();
    assert!(text.starts_with("2014-01-01 "));
    assert!(text.ends_with(&today.iso_text()));
}

#[test]
fn timeframe_default_until_given_day() {
    let t = Timeframe::default_until(date(2021, 12, 31));
    assert_eq!(t.formatted(), "2014-01-01 2021-12-31");
}

#[test]
fn calendar_date_validity() {
    assert!(CalendarDate::new(2015, 2, 29).is_none());
    assert!(CalendarDate::new(2016, 2, 29).is_some());
    assert!(CalendarDate::new(1900, 2, 29).is_none());
    assert!(CalendarDate::new(2000, 2, 29).is_some());
    assert!(CalendarDate::new(2015, 0, 14).is_none());
    assert!(CalendarDate::new(2015, 4, 31).is_none());
    assert!(CalendarDate::new(400000, 1, 1).is_none());
    let d = date(2023, 7, 8);
    assert_eq!((d.year(), d.month(), d.day()), (2023, 7, 8));
    assert_eq!(d.iso_text(), "2023-07-08");
}

#[test]
fn query_needs_an_item() {
    assert!(Query::new(vec![]).is_none());
    let t = Timeframe::new(date(2014, 1, 1), date(2015, 1, 1));
    let q = Query::new(vec![QueryItem::by_keyword("rust", t)]).expect("one item");
    assert_eq!(q.items().len(), 1);
    assert_eq!(q.items()[0].keyword(), "rust");
}

#[test]
fn query_wire_form() {
    let t = Timeframe::new(date(2014, 1, 1), date(2015, 6, 30));
    let q = Query::new(vec![
        QueryItem::by_keyword("rust", t),
        QueryItem::by_keyword_with_geo("go", "US", t),
    ])
    .expect("two items");
    let w = q.to_wire();
    let JsonValue::Object(m) = &w else { panic!("not an object") };
    let keys: Vec<&str> = m.iter().map(|(k, _)| k.as_str()).collect();
    assert_eq!(keys, vec!["comparisonItem", "category", "property"]);
    assert_eq!(number_of(member(&w, "category")), Some("0"));
    assert_eq!(text_of(member(&w, "property")), Some(""));
    let Some(JsonValue::Array(items)) = member(&w, "comparisonItem") else { panic!("no items") };
    assert_eq!(items.len(), 2);
    assert_eq!(text_of(member(&items[0], "keyword")), Some("rust"));
    assert_eq!(member(&items[0], "geo"), Some(&JsonValue::Null));
    assert_eq!(text_of(member(&items[0], "time")), Some("2014-01-01 2015-06-30"));
    assert_eq!(text_of(member(&items[1], "keyword")), Some("go"));
    assert_eq!(text_of(member(&items[1], "geo")), Some("US"));
}

#[test]
fn query_by_keyword_has_one_item() {
    let t = Timeframe::new(date(2014, 1, 1), date(2015, 1, 1));
    let q = Query::by_keyword("verus".to_string(), t);
    assert_eq!(q.items().len(), 1);
    assert_eq!(q.items()[0].keyword(), "verus");
}

#[test]
fn set_member_inserts_and_overwrites() {
    let mut v = JsonValue::Null;
    v.set_member("a", text("1"));
    v.set_member("b", text("2"));
    v.set_member("a", text("3"));
    assert_eq!(text_of(member(&v, "a")), Some("3"));
    assert_eq!(text_of(member(&v, "b")), Some("2"));
    let JsonValue::Object(m) = &v else { panic!("not an object") };
    assert_eq!(m.len(), 2);
}

#[test]
fn set_member_replaces_non_object() {
    let mut v = JsonValue::Bool(true);
    v.set_member("a", JsonValue::Null);
    assert_eq!(v, JsonValue::Object(vec![("a".to_string(), JsonValue::Null)]));
}

#[test]
fn set_nested_creates_and_keeps() {
    let mut v = JsonValue::Object(vec![
        ("x".to_string(), text("keep")),
        (
            "requestOptions".to_string(),
            JsonValue::Object(vec![("backend".to_string(), text("IZG"))]),
        ),
    ]);
    v.set_nested("requestOptions", "property", text("news"));
    assert_eq!(text_of(member(&v, "x")), Some("keep"));
    let opts = member(&v, "requestOptions").expect("options");
    assert_eq!(text_of(member(opts, "backend")), Some("IZG"));
    assert_eq!(text_of(member(opts, "property")), Some("news"));

    let mut w = JsonValue::Null;
    w.set_nested("requestOptions", "category", JsonValue::unsigned(16));
    let opts = member(&w, "requestOptions").expect("options");
    assert_eq!(number_of(member(opts, "category")), Some("16"));
}

#[test]
fn resolution_then_source_in_either_order() {
    let base = || RequestParameters {
        token: "tok".to_string(),
        id: "GEO_MAP".to_string(),
        request: JsonValue::Object(vec![("geo".to_string(), text("US"))]),
    };
    let mut a = base();
    a.resolution(Resolution::City);
    a.source(Source::News);
    let mut b = base();
    b.source(Source::News);
    b.resolution(Resolution::City);
    for p in [&a, &b] {
        assert_eq!(text_of(member(&p.request, "resolution")), Some("CITY"));
        let opts = member(&p.request, "requestOptions").expect("options");
        assert_eq!(text_of(member(opts, "property")), Some("news"));
        assert_eq!(text_of(member(&p.request, "geo")), Some("US"));
        assert_eq!(p.token, "tok");
    }
}

#[test]
fn category_and_low_volume_flag() {
    let mut p = RequestParameters {
        token: "t".to_string(),
        id: "GEO_MAP".to_string(),
        request: JsonValue::Null,
    };
    p.category(Category::Science);
    p.include_low_volume_geos(true);
    let opts = member(&p.request, "requestOptions").expect("options");
    assert_eq!(number_of(member(opts, "category")), Some("174"));
    assert_eq!(member(&p.request, "includeLowSearchVolumeGeos"), Some(&JsonValue::Bool(true)));
}

#[test]
fn selects_first_matching_data_request() {
    let resp = ExploreResponse {
        widgets: vec![
            other("TIMESERIES"),
            data_request("GEO_MAP", "geo-token"),
            other("RELATED"),
            data_request("TIMESERIES", "first"),
            data_request("TIMESERIES", "second"),
        ],
    };
    assert_eq!(resp.first_offer(SearchType::TimeSeries), Some(3));
    let p = resp.get_request(SearchType::TimeSeries).expect("offered");
    assert_eq!(p.token, "first");
    let g = resp.get_request(SearchType::Region).expect("offered");
    assert_eq!(g.token, "geo-token");
    assert!(resp.get_request(SearchType::RelatedQueries).is_none());
    let taken = resp.into_request(SearchType::TimeSeries).expect("offered");
    assert_eq!(taken.token, "first");
    assert_eq!(taken.id, "TIMESERIES");
}

#[test]
fn no_matching_widget_is_unavailable() {
    let resp = ExploreResponse {
        widgets: vec![other("GEO_MAP"), data_request("RELATED_TOPICS", "t")],
    };
    assert!(resp.get_request(SearchType::Region).is_none());
    let r = prepare_region(resp, Resolution::Country, Source::Search, Category::All, false);
    assert!(matches!(r, Err(TrendsError::WidgetUnavailable)));
    let empty = ExploreResponse { widgets: vec![] };
    let r = prepare_time_series(empty, Source::Search, Category::All);
    assert!(matches!(r, Err(TrendsError::WidgetUnavailable)));
}

#[test]
fn prepares_time_series_payload() {
    let resp = ExploreResponse {
        widgets: vec![other("x"), data_request("TIMESERIES", "ts-token")],
    };
    let p = prepare_time_series(resp, Source::Images, Category::Games).expect("offered");
    assert_eq!(p.token, "ts-token");
    assert_eq!(text_of(member(&p.request, "time")), Some("2014-01-01 2020-01-01"));
    let opts = member(&p.request, "requestOptions").expect("options");
    assert_eq!(text_of(member(opts, "property")), Some("images"));
    assert_eq!(number_of(member(opts, "category")), Some("8"));
    assert!(member(&p.request, "resolution").is_none());
}

#[test]
fn prepares_region_payload() {
    let resp = ExploreResponse {
        widgets: vec![data_request("TIMESERIES", "ts"), data_request("GEO_MAP", "geo")],
    };
    let p = prepare_region(resp, Resolution::Dma, Source::Shopping, Category::Travel, true)
        .expect("offered");
    assert_eq!(p.token, "geo");
    assert_eq!(text_of(member(&p.request, "resolution")), Some("DMA"));
    assert_eq!(member(&p.request, "includeLowSearchVolumeGeos"), Some(&JsonValue::Bool(true)));
    let opts = member(&p.request, "requestOptions").expect("options");
    assert_eq!(text_of(member(opts, "property")), Some("froogle"));
    assert_eq!(number_of(member(opts, "category")), Some("67"));
}

#[test]
fn cookie_attributes_are_dropped() {
    assert_eq!(cookie_from_header("SESSION=abc123; Path=/; Secure"), "SESSION=abc123");
    assert_eq!(cookie_from_header("NID=1"), "NID=1");
    assert_eq!(cookie_from_header(";x"), "");
    assert_eq!(cookie_from_header(""), "");
}

#[test]
fn rate_limit_with_cookie_retries_once() {
    let step = RetryPhase::Initial.next_step(429, Some("SESSION=abc123; Path=/; Secure"));
    match step {
        RetryStep::Retry { cookie } => assert_eq!(cookie, "SESSION=abc123"),
        other => panic!("expected a retry, got {:?}", other),
    }
    let next = RetryPhase::Initial.advance();
    assert_eq!(next, RetryPhase::RetriedOnce);
    assert!(matches!(next.next_step(429, Some("SESSION=def")), RetryStep::Deliver));
    assert!(matches!(next.next_step(500, None), RetryStep::Deliver));
}

#[test]
fn rate_limit_without_cookie_fails() {
    assert!(matches!(RetryPhase::Initial.next_step(429, None), RetryStep::Fail));
}

#[test]
fn ok_is_delivered_and_other_statuses_fail() {
    assert!(matches!(RetryPhase::Initial.next_step(200, None), RetryStep::Deliver));
    assert!(matches!(RetryPhase::Initial.next_step(500, Some("a=b")), RetryStep::Fail));
    assert!(matches!(RetryPhase::Initial.next_step(404, None), RetryStep::Fail));
}

#[test]
fn widget_guard_strips_five_characters() {
    let body = ")]}'\n{\"default\":{\"timelineData\":[{\"time\":\"1\"},{\"time\":\"2\"},{\"time\":\"3\"}]}}";
    let json = strip_widget_guard(body).expect("long enough");
    assert_eq!(json, &body[5..]);
    assert!(json.starts_with('{'));
    let v: serde_json::Value = serde_json::from_str(json).expect("json");
    assert_eq!(v["default"]["timelineData"].as_array().map(|a| a.len()), Some(3));
}

#[test]
fn explore_guard_strips_four_characters() {
    let body = ")]}'{\"widgets\":[]}";
    assert_eq!(strip_explore_guard(body).expect("long enough"), "{\"widgets\":[]}");
    assert!(matches!(strip_explore_guard(")]}"), Err(TrendsError::TruncatedBody)));
    assert!(matches!(strip_guard("abcd", 5), Err(TrendsError::TruncatedBody)));
    assert_eq!(strip_guard("abcd", 4).expect("exact"), "");
}

#[test]
fn time_series_entry_parses_epoch_seconds() {
    let e = TimeSeriesEntry::from_parts("1577836800", "Jan 1, 2020".to_string(), vec![42], vec![true])
        .expect("number");
    assert_eq!(e.time, 1577836800);
    assert_eq!(e.formatted_time, "Jan 1, 2020");
    assert_eq!(e.value, vec![42]);
    assert_eq!(e.has_data, vec![true]);
    let neg = TimeSeriesEntry::from_parts("-5", String::new(), vec![], vec![]).expect("number");
    assert_eq!(neg.time, -5);
    let pos = TimeSeriesEntry::from_parts("+7", String::new(), vec![], vec![]).expect("number");
    assert_eq!(pos.time, 7);
}

#[test]
fn time_series_entry_rejects_bad_time() {
    let r = TimeSeriesEntry::from_parts("12a", String::new(), vec![], vec![]);
    match r {
        Err(TrendsError::BadTimestamp(t)) => assert_eq!(t, "12a"),
        _ => panic!("expected a bad timestamp"),
    }
    assert!(TimeSeriesEntry::from_parts("", String::new(), vec![], vec![]).is_err());
    assert!(TimeSeriesEntry::from_parts("99999999999999999999", String::new(), vec![], vec![]).is_err());
}

#[test]
fn query_clone_keeps_items() {
    let t = Timeframe::new(date(2014, 1, 1), date(2015, 1, 1));
    let q = Query::by_keyword("verus".to_string(), t);
    let c = q.clone();
    assert_eq!(c.items().len(), 1);
    assert_eq!(c.items()[0].keyword(), "verus");
    assert_eq!(c.to_wire(), q.to_wire());
}
