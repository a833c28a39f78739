use vstd::prelude::*;
use crate::error::TrendsError;
use crate::json::{JsonValue, child, decimal, fields, is_number_text, is_text, same_except};
use crate::types::{
    Category, Resolution, SearchType, Source, category_code, resolution_token, source_token,
    widget_id,
};

verus! {

/// The token, widget-type identifier and opaque request payload needed to
/// fetch one widget's data.
#[derive(Debug)]
pub struct RequestParameters {
    pub token: String,
    pub id: String,
    pub request: JsonValue,
}

/// One widget descriptor of an explore response.
#[derive(Debug)]
pub enum Feature {
    /// A descriptor that carries what a fetch needs.
    DataRequest(RequestParameters),
    /// Any other descriptor; only its identifier is known.
    Other { id: String },
}

/// The widget descriptors that an explore call returned, in order.
#[derive(Debug)]
pub struct ExploreResponse {
    pub widgets: Vec<Feature>,
}

/// Whether `f` is a data-request descriptor with identifier `id`.
pub open spec fn offers(f: Feature, id: Seq<char>) -> bool {
    f matches Feature::DataRequest(p) && p.id@ == id
}

/// Whether position `i` holds the first data-request descriptor with
/// identifier `id`.
pub open spec fn is_first_offer(ws: Seq<Feature>, i: int, id: Seq<char>) -> bool {
    &&& 0 <= i < ws.len()
    &&& offers(ws[i], id)
    &&& forall|j: int| 0 <= j < i ==> !offers(#[trigger] ws[j], id)
}

/// Whether some descriptor of `ws` is a data request with identifier `id`.
pub open spec fn has_offer(ws: Seq<Feature>, id: Seq<char>) -> bool {
    exists|i: int| 0 <= i < ws.len() && offers(#[trigger] ws[i], id)
}

/// The top-level object of request options.
pub open spec fn options_key() -> Seq<char> {
    "requestOptions"@
}

/// The top-level resolution field.
pub open spec fn resolution_key() -> Seq<char> {
    "resolution"@
}

/// The option that holds the source.
pub open spec fn property_key() -> Seq<char> {
    "property"@
}

/// The option that holds the category.
pub open spec fn category_key() -> Seq<char> {
    "category"@
}

/// The top-level low-volume-regions flag.
pub open spec fn low_volume_key() -> Seq<char> {
    "includeLowSearchVolumeGeos"@
}

/// `after` is `before` with the resolution field set to `r`.
pub open spec fn resolution_set(before: JsonValue, after: JsonValue, r: Resolution) -> bool {
    &&& is_text(child(after, resolution_key()), resolution_token(r))
    &&& fields(after).contains_key(resolution_key())
    &&& same_except(fields(before), fields(after), set![resolution_key()])
}

/// `after` is `before` with the option named `key` set to a value that
/// `holds` accepts; all other fields and options unchanged.
pub open spec fn option_set(
    before: JsonValue,
    after: JsonValue,
    key: Seq<char>,
    holds: spec_fn(JsonValue) -> bool,
) -> bool {
    &&& fields(after).contains_key(options_key())
    &&& same_except(fields(before), fields(after), set![options_key()])
    &&& fields(child(after, options_key())).contains_key(key)
    &&& holds(child(child(after, options_key()), key))
    &&& same_except(
        fields(child(before, options_key())),
        fields(child(after, options_key())),
        set![key],
    )
}

/// `after` is `before` with the source option set to `s`.
pub open spec fn source_set(before: JsonValue, after: JsonValue, s: Source) -> bool {
    option_set(before, after, property_key(), |v: JsonValue| is_text(v, source_token(s)))
}

/// `after` is `before` with the category option set to `c`.
pub open spec fn category_set(before: JsonValue, after: JsonValue, c: Category) -> bool {
    option_set(
        before,
        after,
        category_key(),
        |v: JsonValue| is_number_text(v, decimal(category_code(c) as nat)),
    )
}

proof fn lemma_keys_differ()
    ensures
        resolution_key() != options_key(),
        property_key() != category_key(),
        low_volume_key() != options_key(),
        low_volume_key() != resolution_key(),
{
    reveal_strlit("resolution");
    reveal_strlit("requestOptions");
    reveal_strlit("property");
    reveal_strlit("category");
    reveal_strlit("includeLowSearchVolumeGeos");
    assert(resolution_key()[2] != options_key()[2]);
    assert(property_key()[0] != category_key()[0]);
    assert(low_volume_key()[0] != options_key()[0]);
    assert(low_volume_key()[0] != resolution_key()[0]);
}

proof fn lemma_nested_set(
    before: JsonValue,
    after: JsonValue,
    outer: Seq<char>,
    key: Seq<char>,
    v: JsonValue,
)
    requires
        fields(after).contains_key(outer),
        fields(after).remove(outer) == fields(before).remove(outer),
        fields(child(after, outer)) == fields(child(before, outer)).insert(key, v),
    ensures
        same_except(fields(before), fields(after), set![outer]),
        fields(child(after, outer)).contains_key(key),
        child(child(after, outer), key) == v,
        same_except(fields(child(before, outer)), fields(child(after, outer)), set![key]),
{
    assert forall|k: Seq<char>| !set![outer].contains(k) implies (
    #[trigger] fields(before).contains_key(k) <==> fields(after).contains_key(k)) && (fields(
        before,
    ).contains_key(k) ==> fields(before)[k] == fields(after)[k]) by {
        assert(fields(before).remove(outer).contains_key(k) <==> fields(before).contains_key(k));
        assert(fields(after).remove(outer).contains_key(k) <==> fields(after).contains_key(k));
        if fields(before).contains_key(k) {
            assert(fields(before).remove(outer)[k] == fields(before)[k]);
            assert(fields(after).remove(outer)[k] == fields(after)[k]);
        }
    }
}

impl RequestParameters {
    /// Writes the geographic resolution into the payload's top-level
    /// `resolution` field.
    pub fn resolution(&mut self, resolution: Resolution)
        ensures
            final(self).token == old(self).token,
            final(self).id == old(self).id,
            resolution_set(old(self).request, final(self).request, resolution),
    {
        let v = JsonValue::text(resolution.wire_token());
        self.request.set_member("resolution", v);
        proof {
            reveal_strlit("resolution");
        }
    }

    /// Writes the source into the payload's `requestOptions.property` field.
    pub fn source(&mut self, source: Source)
        ensures
            final(self).token == old(self).token,
            final(self).id == old(self).id,
            source_set(old(self).request, final(self).request, source),
    {
        let v = JsonValue::text(source.wire_token());
        let ghost before = self.request;
        self.request.set_nested("requestOptions", "property", v);
        proof {
            reveal_strlit("requestOptions");
            reveal_strlit("property");
            lemma_nested_set(before, self.request, options_key(), property_key(), v);
        }
    }

    /// Writes the category code into the payload's `requestOptions.category`
    /// field.
    pub fn category(&mut self, category: Category)
        ensures
            final(self).token == old(self).token,
            final(self).id == old(self).id,
            category_set(old(self).request, final(self).request, category),
    {
        let v = JsonValue::unsigned(category.code());
        let ghost before = self.request;
        self.request.set_nested("requestOptions", "category", v);
        proof {
            reveal_strlit("requestOptions");
            reveal_strlit("category");
            lemma_nested_set(before, self.request, options_key(), category_key(), v);
        }
    }

    /// Writes the low-volume-regions flag into the payload's top-level
    /// `includeLowSearchVolumeGeos` field.
    pub fn include_low_volume_geos(&mut self, enabled: bool)
        ensures
            final(self).token == old(self).token,
            final(self).id == old(self).id,
            fields(final(self).request) == fields(old(self).request).insert(
                low_volume_key(),
                JsonValue::Bool(enabled),
            ),
    {
        self.request.set_member("includeLowSearchVolumeGeos", JsonValue::Bool(enabled));
        proof {
            reveal_strlit("includeLowSearchVolumeGeos");
        }
    }
}

impl ExploreResponse {
    /// The position of the first data-request descriptor whose identifier is
    /// the one bound to `search`.
    pub fn first_offer(&self, search: SearchType) -> (r: Option<usize>)
        ensures
            r is None <==> !has_offer(self.widgets@, widget_id(search)),
            r matches Some(i) ==> is_first_offer(self.widgets@, i as int, widget_id(search)),
    {
        let id = search.widget_id().to_owned();
        let mut i: usize = 0;
        while i < self.widgets.len()
            invariant
                id@ == widget_id(search),
                i <= self.widgets@.len(),
                forall|j: int| 0 <= j < i ==> !offers(#[trigger] self.widgets@[j], id@),
            decreases self.widgets.len() - i,
        {
            match &self.widgets[i] {
                Feature::DataRequest(p) => {
                    if p.id == id {
                        assert(offers(self.widgets@[i as int], id@));
                        return Some(i);
                    }
                },
                Feature::Other { .. } => {},
            }
            i = i + 1;
        }
        None
    }

    /// The first data-request descriptor whose identifier is the one bound to
    /// `search`; descriptors of other kinds or identifiers are passed over.
    pub fn get_request(&self, search: SearchType) -> (r: Option<&RequestParameters>)
        ensures
            r is None <==> !has_offer(self.widgets@, widget_id(search)),
            r matches Some(p) ==> exists|i: int|
                is_first_offer(self.widgets@, i, widget_id(search))
                    && self.widgets@[i] == Feature::DataRequest(*p),
    {
        match self.first_offer(search) {
            Some(i) => match &self.widgets[i] {
                Feature::DataRequest(p) => Some(p),
                Feature::Other { .. } => None,
            },
            None => None,
        }
    }

    /// Takes out the descriptor that `get_request` selects, so that it can be
    /// refined on its own; fails with `WidgetUnavailable` where none matches.
    pub fn into_request(self, search: SearchType) -> (r: Result<RequestParameters, TrendsError>)
        ensures
            r is Err <==> !has_offer(self.widgets@, widget_id(search)),
            r matches Err(e) ==> e is WidgetUnavailable,
            r matches Ok(p) ==> exists|i: int|
                is_first_offer(self.widgets@, i, widget_id(search))
                    && self.widgets@[i] == Feature::DataRequest(p),
    {
        match self.first_offer(search) {
            Some(i) => {
                let mut widgets = self.widgets;
                match widgets.remove(i) {
                    Feature::DataRequest(p) => Ok(p),
                    Feature::Other { .. } => Err(TrendsError::WidgetUnavailable),
                }
            },
            None => Err(TrendsError::WidgetUnavailable),
        }
    }
}

proof fn lemma_same_except_trans(
    a: Map<Seq<char>, JsonValue>,
    b: Map<Seq<char>, JsonValue>,
    c: Map<Seq<char>, JsonValue>,
    k1: Set<Seq<char>>,
    k2: Set<Seq<char>>,
    k: Set<Seq<char>>,
)
    requires
        same_except(a, b, k1),
        same_except(b, c, k2),
        k1.subset_of(k),
        k2.subset_of(k),
    ensures
        same_except(a, c, k),
{
    assert forall|x: Seq<char>| !k.contains(x) implies (#[trigger] a.contains_key(x)
        <==> c.contains_key(x)) && (a.contains_key(x) ==> a[x] == c[x]) by {
        assert(!k1.contains(x) && !k2.contains(x));
        assert(a.contains_key(x) <==> b.contains_key(x));
        assert(b.contains_key(x) <==> c.contains_key(x));
    }
}

/// `after` is `before` with the options `property` and `category` set to
/// the tokens of `s` and `c`; no other option changes.
pub open spec fn options_refined(before: JsonValue, after: JsonValue, s: Source, c: Category) -> bool {
    let opts_before = child(before, options_key());
    let opts_after = child(after, options_key());
    &&& fields(after).contains_key(options_key())
    &&& fields(opts_after).contains_key(property_key())
    &&& fields(opts_after).contains_key(category_key())
    &&& is_text(child(opts_after, property_key()), source_token(s))
    &&& is_number_text(child(opts_after, category_key()), decimal(category_code(c) as nat))
    &&& same_except(fields(opts_before), fields(opts_after), set![property_key(), category_key()])
}

/// The payload of a time-series fetch: `before` refined with a source and a
/// category, every other field unchanged.
pub open spec fn time_series_payload(
    before: JsonValue,
    after: JsonValue,
    s: Source,
    c: Category,
) -> bool {
    &&& options_refined(before, after, s, c)
    &&& same_except(fields(before), fields(after), set![options_key()])
}

/// The payload of a regional fetch: `before` refined with a resolution, a
/// source, a category and the low-volume-regions flag, every other field
/// unchanged.
pub open spec fn region_payload(
    before: JsonValue,
    after: JsonValue,
    r: Resolution,
    s: Source,
    c: Category,
    low_volume: bool,
) -> bool {
    &&& options_refined(before, after, s, c)
    &&& fields(after).contains_key(resolution_key())
    &&& is_text(child(after, resolution_key()), resolution_token(r))
    &&& fields(after).contains_key(low_volume_key())
    &&& child(after, low_volume_key()) == JsonValue::Bool(low_volume)
    &&& same_except(
        fields(before),
        fields(after),
        set![resolution_key(), options_key(), low_volume_key()],
    )
}

proof fn lemma_source_then_category(
    w0: JsonValue,
    w1: JsonValue,
    w2: JsonValue,
    s: Source,
    c: Category,
)
    requires
        source_set(w0, w1, s),
        category_set(w1, w2, c),
    ensures
        time_series_payload(w0, w2, s, c),
{
    lemma_keys_differ();
    let o0 = fields(child(w0, options_key()));
    let o1 = fields(child(w1, options_key()));
    let o2 = fields(child(w2, options_key()));
    assert(!set![category_key()].contains(property_key()));
    assert(o1.contains_key(property_key()));
    assert(o2.contains_key(property_key()));
    assert(o2[property_key()] == o1[property_key()]);
    lemma_same_except_trans(o0, o1, o2, set![property_key()], set![category_key()], set![property_key(), category_key()]);
    lemma_same_except_trans(fields(w0), fields(w1), fields(w2), set![options_key()], set![options_key()], set![options_key()]);
}

/// Selects the time-series widget of an explore response and refines its
/// payload with a source and a category, ready to be fetched.
pub fn prepare_time_series(
    response: ExploreResponse,
    source: Source,
    category: Category,
) -> (r: Result<RequestParameters, TrendsError>)
    ensures
        r is Err <==> !has_offer(response.widgets@, widget_id(SearchType::TimeSeries)),
        r matches Err(e) ==> e is WidgetUnavailable,
        r matches Ok(p) ==> exists|i: int|
            is_first_offer(response.widgets@, i, widget_id(SearchType::TimeSeries))
                && (response.widgets@[i] matches Feature::DataRequest(q) && p.token == q.token
                && p.id == q.id && time_series_payload(q.request, p.request, source, category)),
{
    let mut item = match response.into_request(SearchType::TimeSeries) {
        Ok(p) => p,
        Err(e) => {
            return Err(e);
        },
    };
    let ghost w0 = item.request;
    item.source(source);
    let ghost w1 = item.request;
    item.category(category);
    proof {
        lemma_source_then_category(w0, w1, item.request, source, category);
    }
    Ok(item)
}

proof fn lemma_region_steps(
    w0: JsonValue,
    w1: JsonValue,
    w2: JsonValue,
    w3: JsonValue,
    w4: JsonValue,
    r: Resolution,
    s: Source,
    c: Category,
    low_volume: bool,
)
    requires
        resolution_set(w0, w1, r),
        source_set(w1, w2, s),
        category_set(w2, w3, c),
        fields(w4) == fields(w3).insert(low_volume_key(), JsonValue::Bool(low_volume)),
    ensures
        region_payload(w0, w4, r, s, c, low_volume),
{
    lemma_keys_differ();
    lemma_source_then_category(w1, w2, w3, s, c);
    let keys = set![resolution_key(), options_key(), low_volume_key()];
    assert(fields(w3).contains_key(resolution_key()));
    assert(fields(w3)[resolution_key()] == fields(w1)[resolution_key()]);
    assert(child(w4, options_key()) == child(w3, options_key()));
    assert(same_except(fields(w3), fields(w4), set![low_volume_key()]));
    assert(child(w1, options_key()) == child(w0, options_key()));
    lemma_same_except_trans(fields(w0), fields(w1), fields(w3), set![resolution_key()], set![options_key()], keys);
    lemma_same_except_trans(fields(w0), fields(w3), fields(w4), keys, set![low_volume_key()], keys);
}

/// Selects the regional widget of an explore response and refines its
/// payload with a resolution, a source, a category and the low-volume-regions
/// flag, ready to be fetched.
pub fn prepare_region(
    response: ExploreResponse,
    resolution: Resolution,
    source: Source,
    category: Category,
    low_volume: bool,
) -> (r: Result<RequestParameters, TrendsError>)
    ensures
        r is Err <==> !has_offer(response.widgets@, widget_id(SearchType::Region)),
        r matches Err(e) ==> e is WidgetUnavailable,
        r matches Ok(p) ==> exists|i: int|
            is_first_offer(response.widgets@, i, widget_id(SearchType::Region)) && (
            response.widgets@[i] matches Feature::DataRequest(q) && p.token == q.token && p.id
                == q.id && region_payload(
                q.request,
                p.request,
                resolution,
                source,
                category,
                low_volume,
            )),
{
    let mut item = match response.into_request(SearchType::Region) {
        Ok(p) => p,
        Err(e) => {
            return Err(e);
        },
    };
    let ghost w0 = item.request;
    item.resolution(resolution);
    let ghost w1 = item.request;
    item.source(source);
    let ghost w2 = item.request;
    item.category(category);
    let ghost w3 = item.request;
    item.include_low_volume_geos(low_volume);
    proof {
        lemma_region_steps(w0, w1, w2, w3, item.request, resolution, source, category, low_volume);
    }
    Ok(item)
}

/// `after` is `before` with the resolution field and the source option set
/// to the tokens of `r` and `s`, and nothing else changed.
pub open spec fn resolution_and_source_set(
    before: JsonValue,
    after: JsonValue,
    r: Resolution,
    s: Source,
) -> bool {
    let opts_after = child(after, options_key());
    &&& fields(after).contains_key(resolution_key())
    &&& is_text(child(after, resolution_key()), resolution_token(r))
    &&& fields(after).contains_key(options_key())
    &&& fields(opts_after).contains_key(property_key())
    &&& is_text(child(opts_after, property_key()), source_token(s))
    &&& same_except(fields(before), fields(after), set![resolution_key(), options_key()])
    &&& same_except(fields(child(before, options_key())), fields(opts_after), set![property_key()])
}

/// Setting the resolution and setting the source touch disjoint places of a
/// payload: whichever is applied first, the payload ends with both values
/// written and everything else as it was.
pub proof fn lemma_resolution_source_commute(
    payload: JsonValue,
    r: Resolution,
    s: Source,
    res_first: JsonValue,
    res_then_src: JsonValue,
    src_first: JsonValue,
    src_then_res: JsonValue,
)
    requires
        resolution_set(payload, res_first, r),
        source_set(res_first, res_then_src, s),
        source_set(payload, src_first, s),
        resolution_set(src_first, src_then_res, r),
    ensures
        resolution_and_source_set(payload, res_then_src, r, s),
        resolution_and_source_set(payload, src_then_res, r, s),
{
    lemma_keys_differ();
    let keys = set![resolution_key(), options_key()];
    assert(child(res_first, options_key()) == child(payload, options_key()));
    assert(fields(res_then_src)[resolution_key()] == fields(res_first)[resolution_key()]);
    lemma_same_except_trans(fields(payload), fields(res_first), fields(res_then_src), set![resolution_key()], set![options_key()], keys);
    assert(child(src_then_res, options_key()) == child(src_first, options_key()));
    lemma_same_except_trans(fields(payload), fields(src_first), fields(src_then_res), set![options_key()], set![resolution_key()], keys);
}

} // verus!
