//! The web search endpoint: its request options, their projection into query
//! parameters, and the decoding of its response.
use vstd::prelude::*;
use crate::json::{
    DecodeError, FromJson, JsonValue, array_decodes, array_member, array_member_error,
    array_shaped, integer_member, integer_of, is_integer, is_number, is_opt_text, is_text, member,
    member_error, number_text_member, number_text_of, object_decodes, object_error, object_member,
    object_shaped, opt_object_decodes, opt_object_error, opt_object_member, opt_object_shaped,
    opt_text_member, opt_text_of, text_member, text_of,
};
use crate::params::{
    OptionEntry, QueryParam, count_name, distinct_names, lemma_count_concat,
    lemma_count_present, lemma_count_present_absent, lemma_count_push, opt_view, params_view,
    present, project, push_entry, table_view, text_entry,
};

verus! {

/// The options of a web search, one per optional parameter of the endpoint.
#[derive(Debug, Clone)]
pub struct SearchRequest {
    /// The search query.
    pub q: Option<String>,
    /// Enables (0, the default) or disables (1) simplified and traditional Chinese search.
    pub c2coff: Option<String>,
    /// Restricts results to documents from a country.
    pub cr: Option<String>,
    /// The search engine to run on; when it is not set, the configured engine is used.
    pub cx: Option<String>,
    /// Restricts results by date (d1, w1, m1, y1, ...).
    pub date_restrict: Option<String>,
    /// A phrase that every result contains.
    pub exact_terms: Option<String>,
    /// A word or phrase that no result contains.
    pub exclude_terms: Option<String>,
    /// Restricts results to files of this extension.
    pub file_type: Option<String>,
    /// Turns the duplicate content filter off (0) or on (1).
    pub filter: Option<String>,
    /// The geolocation of the end user.
    pub gl: Option<String>,
    /// The end of an inclusive search range.
    pub high_range: Option<String>,
    /// The interface language.
    pub hl: Option<String>,
    /// Terms appended to the query as with a logical AND.
    pub hq: Option<String>,
    /// The color type of images returned.
    pub img_color_type: Option<String>,
    /// The dominant color of images returned.
    pub img_dominant_color: Option<String>,
    /// The size of images returned.
    pub img_size: Option<String>,
    /// The type of images returned.
    pub img_type: Option<String>,
    /// Every result links to this URL.
    pub link_site: Option<String>,
    /// The start of an inclusive search range.
    pub low_range: Option<String>,
    /// Restricts results to documents in a language.
    pub lr: Option<String>,
    /// The number of results to return (1 to 10).
    pub num: Option<String>,
    /// Terms of which every result contains at least one.
    pub or_terms: Option<String>,
    /// Every result is related to this URL.
    pub related_site: Option<String>,
    /// Filters by licensing (cc_publicdomain, cc_attribute, ...).
    pub rights: Option<String>,
    /// The search safety level.
    pub safe: Option<String>,
    /// The search type (image, news, video).
    pub search_type: Option<String>,
    /// Every result comes from this site.
    pub site_search: Option<String>,
    /// Whether results from `site_search` are included or excluded.
    pub site_search_filter: Option<String>,
    /// How results are sorted.
    pub sort: Option<String>,
    /// The index of the first result to return.
    pub start: Option<String>,
}

impl SearchRequest {
    /// The options as (upstream name, value if set), in the order they are sent.
    pub open spec fn options(self) -> Seq<(Seq<char>, Option<Seq<char>>)> {
        seq![
            ("q"@, opt_view(self.q)),
            ("c2coff"@, opt_view(self.c2coff)),
            ("cr"@, opt_view(self.cr)),
            ("dateRestrict"@, opt_view(self.date_restrict)),
            ("exactTerms"@, opt_view(self.exact_terms)),
            ("excludeTerms"@, opt_view(self.exclude_terms)),
            ("fileType"@, opt_view(self.file_type)),
            ("filter"@, opt_view(self.filter)),
            ("gl"@, opt_view(self.gl)),
            ("highRange"@, opt_view(self.high_range)),
            ("hl"@, opt_view(self.hl)),
            ("hq"@, opt_view(self.hq)),
            ("imgColorType"@, opt_view(self.img_color_type)),
            ("imgDominantColor"@, opt_view(self.img_dominant_color)),
            ("imgSize"@, opt_view(self.img_size)),
            ("imgType"@, opt_view(self.img_type)),
            ("linkSite"@, opt_view(self.link_site)),
            ("lowRange"@, opt_view(self.low_range)),
            ("lr"@, opt_view(self.lr)),
            ("num"@, opt_view(self.num)),
            ("orTerms"@, opt_view(self.or_terms)),
            ("relatedSite"@, opt_view(self.related_site)),
            ("rights"@, opt_view(self.rights)),
            ("safe"@, opt_view(self.safe)),
            ("searchType"@, opt_view(self.search_type)),
            ("siteSearch"@, opt_view(self.site_search)),
            ("siteSearchFilter"@, opt_view(self.site_search_filter)),
            ("sort"@, opt_view(self.sort)),
            ("start"@, opt_view(self.start)),
        ]
    }

    /// The table of options, each under its upstream name.
    #[verifier::rlimit(50)]
    pub fn option_table(&self) -> (r: Vec<OptionEntry>)
        ensures
            table_view(r@) == self.options(),
    {
        let mut t: Vec<OptionEntry> = Vec::new();
        push_entry(&mut t, text_entry("q", &self.q));
        push_entry(&mut t, text_entry("c2coff", &self.c2coff));
        push_entry(&mut t, text_entry("cr", &self.cr));
        push_entry(&mut t, text_entry("dateRestrict", &self.date_restrict));
        push_entry(&mut t, text_entry("exactTerms", &self.exact_terms));
        push_entry(&mut t, text_entry("excludeTerms", &self.exclude_terms));
        push_entry(&mut t, text_entry("fileType", &self.file_type));
        push_entry(&mut t, text_entry("filter", &self.filter));
        push_entry(&mut t, text_entry("gl", &self.gl));
        push_entry(&mut t, text_entry("highRange", &self.high_range));
        push_entry(&mut t, text_entry("hl", &self.hl));
        push_entry(&mut t, text_entry("hq", &self.hq));
        push_entry(&mut t, text_entry("imgColorType", &self.img_color_type));
        push_entry(&mut t, text_entry("imgDominantColor", &self.img_dominant_color));
        push_entry(&mut t, text_entry("imgSize", &self.img_size));
        push_entry(&mut t, text_entry("imgType", &self.img_type));
        push_entry(&mut t, text_entry("linkSite", &self.link_site));
        push_entry(&mut t, text_entry("lowRange", &self.low_range));
        push_entry(&mut t, text_entry("lr", &self.lr));
        push_entry(&mut t, text_entry("num", &self.num));
        push_entry(&mut t, text_entry("orTerms", &self.or_terms));
        push_entry(&mut t, text_entry("relatedSite", &self.related_site));
        push_entry(&mut t, text_entry("rights", &self.rights));
        push_entry(&mut t, text_entry("safe", &self.safe));
        push_entry(&mut t, text_entry("searchType", &self.search_type));
        push_entry(&mut t, text_entry("siteSearch", &self.site_search));
        push_entry(&mut t, text_entry("siteSearchFilter", &self.site_search_filter));
        push_entry(&mut t, text_entry("sort", &self.sort));
        push_entry(&mut t, text_entry("start", &self.start));
        proof {
            assert(table_view(t@) =~= self.options());
        }
        t
    }
}

/// The upstream names of the options are pairwise distinct and differ from
/// the names of the two parameters that are always sent.
pub proof fn lemma_google_names_distinct(req: SearchRequest)
    ensures
        distinct_names(req.options()),
        forall|j: int|
            0 <= j < req.options().len() ==> req.options()[j].0 != "key"@ && req.options()[j].0
                != "cx"@,
        "key"@ != "cx"@,
{
    reveal_strlit("key");
    reveal_strlit("cx");
    assert("key"@ =~= seq!['k', 'e', 'y']);
    assert("cx"@ =~= seq!['c', 'x']);
    reveal_strlit("q");
    reveal_strlit("c2coff");
    reveal_strlit("cr");
    reveal_strlit("dateRestrict");
    reveal_strlit("exactTerms");
    reveal_strlit("excludeTerms");
    reveal_strlit("fileType");
    reveal_strlit("filter");
    reveal_strlit("gl");
    reveal_strlit("highRange");
    reveal_strlit("hl");
    reveal_strlit("hq");
    reveal_strlit("imgColorType");
    reveal_strlit("imgDominantColor");
    reveal_strlit("imgSize");
    reveal_strlit("imgType");
    reveal_strlit("linkSite");
    reveal_strlit("lowRange");
    reveal_strlit("lr");
    reveal_strlit("num");
    reveal_strlit("orTerms");
    reveal_strlit("relatedSite");
    reveal_strlit("rights");
    reveal_strlit("safe");
    reveal_strlit("searchType");
    reveal_strlit("siteSearch");
    reveal_strlit("siteSearchFilter");
    reveal_strlit("sort");
    reveal_strlit("start");
    assert("q"@ =~= seq!['q']);
    assert("c2coff"@ =~= seq!['c', '2', 'c', 'o', 'f', 'f']);
    assert("cr"@ =~= seq!['c', 'r']);
    assert("dateRestrict"@ =~= seq!['d', 'a', 't', 'e', 'R', 'e', 's', 't', 'r', 'i', 'c', 't']);
    assert("exactTerms"@ =~= seq!['e', 'x', 'a', 'c', 't', 'T', 'e', 'r', 'm', 's']);
    assert("excludeTerms"@ =~= seq!['e', 'x', 'c', 'l', 'u', 'd', 'e', 'T', 'e', 'r', 'm', 's']);
    assert("fileType"@ =~= seq!['f', 'i', 'l', 'e', 'T', 'y', 'p', 'e']);
    assert("filter"@ =~= seq!['f', 'i', 'l', 't', 'e', 'r']);
    assert("gl"@ =~= seq!['g', 'l']);
    assert("highRange"@ =~= seq!['h', 'i', 'g', 'h', 'R', 'a', 'n', 'g', 'e']);
    assert("hl"@ =~= seq!['h', 'l']);
    assert("hq"@ =~= seq!['h', 'q']);
    assert("imgColorType"@ =~= seq!['i', 'm', 'g', 'C', 'o', 'l', 'o', 'r', 'T', 'y', 'p', 'e']);
    assert("imgDominantColor"@ =~= seq!['i', 'm', 'g', 'D', 'o', 'm', 'i', 'n', 'a', 'n', 't', 'C', 'o', 'l', 'o', 'r']);
    assert("imgSize"@ =~= seq!['i', 'm', 'g', 'S', 'i', 'z', 'e']);
    assert("imgType"@ =~= seq!['i', 'm', 'g', 'T', 'y', 'p', 'e']);
    assert("linkSite"@ =~= seq!['l', 'i', 'n', 'k', 'S', 'i', 't', 'e']);
    assert("lowRange"@ =~= seq!['l', 'o', 'w', 'R', 'a', 'n', 'g', 'e']);
    assert("lr"@ =~= seq!['l', 'r']);
    assert("num"@ =~= seq!['n', 'u', 'm']);
    assert("orTerms"@ =~= seq!['o', 'r', 'T', 'e', 'r', 'm', 's']);
    assert("relatedSite"@ =~= seq!['r', 'e', 'l', 'a', 't', 'e', 'd', 'S', 'i', 't', 'e']);
    assert("rights"@ =~= seq!['r', 'i', 'g', 'h', 't', 's']);
    assert("safe"@ =~= seq!['s', 'a', 'f', 'e']);
    assert("searchType"@ =~= seq!['s', 'e', 'a', 'r', 'c', 'h', 'T', 'y', 'p', 'e']);
    assert("siteSearch"@ =~= seq!['s', 'i', 't', 'e', 'S', 'e', 'a', 'r', 'c', 'h']);
    assert("siteSearchFilter"@ =~= seq!['s', 'i', 't', 'e', 'S', 'e', 'a', 'r', 'c', 'h', 'F', 'i', 'l', 't', 'e', 'r']);
    assert("sort"@ =~= seq!['s', 'o', 'r', 't']);
    assert("start"@ =~= seq!['s', 't', 'a', 'r', 't']);
}

/// The engine the search runs on: the one the request names, else the
/// configured one.
pub open spec fn engine_of(req: SearchRequest, engine_id: Seq<char>) -> Seq<char> {
    match req.cx {
        Some(c) => c@,
        None => engine_id,
    }
}

/// The parameters of a web search: the key and the engine first, then one for
/// each set option.
pub open spec fn google_params(req: SearchRequest, api_key: Seq<char>, engine_id: Seq<char>) -> Seq<
    (Seq<char>, Seq<char>),
> {
    seq![("key"@, api_key), ("cx"@, engine_of(req, engine_id))] + present(req.options())
}

impl SearchRequest {
    /// The query parameters of this search, authenticated with `api_key` and
    /// run on the engine the request names, else on `engine_id`.
    pub fn query_params(&self, api_key: String, engine_id: String) -> (r: Vec<QueryParam>)
        ensures
            params_view(r@) == google_params(*self, api_key@, engine_id@),
    {
        let engine = match &self.cx {
            Some(c) => c.clone(),
            None => engine_id,
        };
        let fixed: Vec<QueryParam> = vec![("key", api_key), ("cx", engine)];
        let table = self.option_table();
        proof {
            assert(params_view(fixed@) =~= seq![("key"@, api_key@), ("cx"@, engine_of(*self, engine_id@))]);
        }
        project(fixed, &table)
    }
}

/// Every option is sent exactly once when it is set, under its upstream name
/// and with its value, and not at all when it is not set.
pub proof fn lemma_google_options_sent_once(
    req: SearchRequest,
    api_key: Seq<char>,
    engine_id: Seq<char>,
    i: int,
)
    requires
        0 <= i < req.options().len(),
    ensures
        count_name(google_params(req, api_key, engine_id), req.options()[i].0) == (if req.options()[i].1 is Some {
            1nat
        } else {
            0nat
        }),
        req.options()[i].1 is Some ==> google_params(req, api_key, engine_id).contains(
            (req.options()[i].0, req.options()[i].1->0),
        ),
{
    let t = req.options();
    let fixed = seq![("key"@, api_key), ("cx"@, engine_of(req, engine_id))];
    lemma_google_names_distinct(req);
    lemma_count_present(t, i);
    lemma_count_concat(fixed, present(t), t[i].0);
    lemma_fixed_count(api_key, engine_of(req, engine_id), t[i].0);
    if t[i].1 is Some {
        let k = choose|k: int| 0 <= k < present(t).len() && present(t)[k] == (t[i].0, t[i].1->0);
        assert(google_params(req, api_key, engine_id)[k + 2] == (t[i].0, t[i].1->0));
    }
}

/// The engine identifier is sent exactly once: the one the request names when
/// it is set, the configured one otherwise.
pub proof fn lemma_google_engine_sent_once(req: SearchRequest, api_key: Seq<char>, engine_id: Seq<char>)
    ensures
        count_name(google_params(req, api_key, engine_id), "cx"@) == 1,
        google_params(req, api_key, engine_id).contains(("cx"@, engine_of(req, engine_id))),
{
    let t = req.options();
    let fixed = seq![("key"@, api_key), ("cx"@, engine_of(req, engine_id))];
    lemma_google_names_distinct(req);
    lemma_count_present_absent(t, "cx"@);
    lemma_count_concat(fixed, present(t), "cx"@);
    lemma_fixed_count(api_key, engine_of(req, engine_id), "cx"@);
    assert(google_params(req, api_key, engine_id)[1] == ("cx"@, engine_of(req, engine_id)));
}

proof fn lemma_fixed_count(api_key: Seq<char>, engine: Seq<char>, name: Seq<char>)
    ensures
        count_name(seq![("key"@, api_key), ("cx"@, engine)], name) == (if name == "key"@ {
            1nat
        } else {
            0nat
        }) + (if name == "cx"@ {
            1nat
        } else {
            0nat
        }),
{
    let e = Seq::<(Seq<char>, Seq<char>)>::empty();
    lemma_count_push(e, ("key"@, api_key), name);
    lemma_count_push(e.push(("key"@, api_key)), ("cx"@, engine), name);
    assert(count_name(e, name) == 0);
    assert(seq![("key"@, api_key), ("cx"@, engine)] =~= e.push(("key"@, api_key)).push(("cx"@, engine)));
}

/// A page of web search results.
#[derive(Debug, Clone)]
pub struct SearchResponse {
    /// The resource type.
    pub kind: String,
    /// The template of the request URL.
    pub url: Url,
    /// The request that was answered and the one for the next page.
    pub queries: Queries,
    /// The search engine that answered.
    pub context: Context,
    /// Timing and size of the search, when given.
    pub search_information: Option<SearchInformation>,
    /// The results, in the order the endpoint gave them.
    pub items: Vec<SearchItem>,
}

impl FromJson for SearchResponse {
    open spec fn shaped(v: JsonValue) -> bool {
        match v {
            JsonValue::Object(f) => {
                &&& is_text(member(f@, "kind"@))
                &&& object_shaped::<Url>(member(f@, "url"@))
                &&& object_shaped::<Queries>(member(f@, "queries"@))
                &&& object_shaped::<Context>(member(f@, "context"@))
                &&& opt_object_shaped::<SearchInformation>(member(f@, "searchInformation"@))
                &&& array_shaped::<SearchItem>(member(f@, "items"@))
            },
            _ => false,
        }
    }

    open spec fn decodes_to(v: JsonValue, out: Self) -> bool {
        match v {
            JsonValue::Object(f) => {
                &&& out.kind == text_of(member(f@, "kind"@))
                &&& object_decodes::<Url>(member(f@, "url"@), out.url)
                &&& object_decodes::<Queries>(member(f@, "queries"@), out.queries)
                &&& object_decodes::<Context>(member(f@, "context"@), out.context)
                &&& opt_object_decodes::<SearchInformation>(member(f@, "searchInformation"@), out.search_information)
                &&& array_decodes::<SearchItem>(member(f@, "items"@), out.items@)
            },
            _ => false,
        }
    }

    open spec fn error_of(v: JsonValue) -> DecodeError {
        match v {
            JsonValue::Object(f) => {
                if !is_text(member(f@, "kind"@)) {
                    member_error(member(f@, "kind"@), "kind")
                } else if !object_shaped::<Url>(member(f@, "url"@)) {
                    object_error::<Url>(member(f@, "url"@), "url")
                } else if !object_shaped::<Queries>(member(f@, "queries"@)) {
                    object_error::<Queries>(member(f@, "queries"@), "queries")
                } else if !object_shaped::<Context>(member(f@, "context"@)) {
                    object_error::<Context>(member(f@, "context"@), "context")
                } else if !opt_object_shaped::<SearchInformation>(member(f@, "searchInformation"@)) {
                    opt_object_error::<SearchInformation>(member(f@, "searchInformation"@), "searchInformation")
                } else if !array_shaped::<SearchItem>(member(f@, "items"@)) {
                    array_member_error::<SearchItem>(member(f@, "items"@), "items")
                } else {
                    DecodeError::Document
                }
            },
            _ => DecodeError::Document,
        }
    }

    fn from_json(v: &JsonValue) -> (r: Result<Self, DecodeError>) {
        match v {
            JsonValue::Object(f) => {
                let kind = text_member(f, "kind")?;
                let url = object_member(f, "url")?;
                let queries = object_member(f, "queries")?;
                let context = object_member(f, "context")?;
                let search_information = opt_object_member(f, "searchInformation")?;
                let items = array_member(f, "items")?;
                Ok(SearchResponse { kind, url, queries, context, search_information, items })
            },
            _ => Err(DecodeError::Document),
        }
    }
}

/// The template of the request URL.
#[derive(Debug, Clone)]
pub struct Url {
    /// Its media type.
    pub type_: String,
    /// The template itself.
    pub template: String,
}

impl FromJson for Url {
    open spec fn shaped(v: JsonValue) -> bool {
        match v {
            JsonValue::Object(f) => {
                &&& is_text(member(f@, "type"@))
                &&& is_text(member(f@, "template"@))
            },
            _ => false,
        }
    }

    open spec fn decodes_to(v: JsonValue, out: Self) -> bool {
        match v {
            JsonValue::Object(f) => {
                &&& out.type_ == text_of(member(f@, "type"@))
                &&& out.template == text_of(member(f@, "template"@))
            },
            _ => false,
        }
    }

    open spec fn error_of(v: JsonValue) -> DecodeError {
        match v {
            JsonValue::Object(f) => {
                if !is_text(member(f@, "type"@)) {
                    member_error(member(f@, "type"@), "type")
                } else if !is_text(member(f@, "template"@)) {
                    member_error(member(f@, "template"@), "template")
                } else {
                    DecodeError::Document
                }
            },
            _ => DecodeError::Document,
        }
    }

    fn from_json(v: &JsonValue) -> (r: Result<Self, DecodeError>) {
        match v {
            JsonValue::Object(f) => {
                let type_ = text_member(f, "type")?;
                let template = text_member(f, "template")?;
                Ok(Url { type_, template })
            },
            _ => Err(DecodeError::Document),
        }
    }
}

/// The request that was answered and the one for the next page.
#[derive(Debug, Clone)]
pub struct Queries {
    /// The request answered.
    pub request: Vec<Request>,
    /// The request for the next page.
    pub next_page: Vec<NextPage>,
}

impl FromJson for Queries {
    open spec fn shaped(v: JsonValue) -> bool {
        match v {
            JsonValue::Object(f) => {
                &&& array_shaped::<Request>(member(f@, "request"@))
                &&& array_shaped::<NextPage>(member(f@, "nextPage"@))
            },
            _ => false,
        }
    }

    open spec fn decodes_to(v: JsonValue, out: Self) -> bool {
        match v {
            JsonValue::Object(f) => {
                &&& array_decodes::<Request>(member(f@, "request"@), out.request@)
                &&& array_decodes::<NextPage>(member(f@, "nextPage"@), out.next_page@)
            },
            _ => false,
        }
    }

    open spec fn error_of(v: JsonValue) -> DecodeError {
        match v {
            JsonValue::Object(f) => {
                if !array_shaped::<Request>(member(f@, "request"@)) {
                    array_member_error::<Request>(member(f@, "request"@), "request")
                } else if !array_shaped::<NextPage>(member(f@, "nextPage"@)) {
                    array_member_error::<NextPage>(member(f@, "nextPage"@), "nextPage")
                } else {
                    DecodeError::Document
                }
            },
            _ => DecodeError::Document,
        }
    }

    fn from_json(v: &JsonValue) -> (r: Result<Self, DecodeError>) {
        match v {
            JsonValue::Object(f) => {
                let request = array_member(f, "request")?;
                let next_page = array_member(f, "nextPage")?;
                Ok(Queries { request, next_page })
            },
            _ => Err(DecodeError::Document),
        }
    }
}

/// The request that returns the next page of results.
#[derive(Debug, Clone)]
pub struct NextPage {
    /// A description of the query.
    pub title: String,
    /// The total number of results, as text.
    pub total_results: String,
    /// The search terms.
    pub search_terms: String,
    /// The number of results in this set.
    pub count: i64,
    /// The index of the first result of this set.
    pub start_index: i64,
    /// The encoding of the input.
    pub input_encoding: String,
    /// The encoding of the output.
    pub output_encoding: String,
    /// The safety level.
    pub safe: String,
    /// The search engine identifier.
    pub cx: String,
}

impl FromJson for NextPage {
    open spec fn shaped(v: JsonValue) -> bool {
        match v {
            JsonValue::Object(f) => {
                &&& is_text(member(f@, "title"@))
                &&& is_text(member(f@, "totalResults"@))
                &&& is_text(member(f@, "searchTerms"@))
                &&& is_integer(member(f@, "count"@))
                &&& is_integer(member(f@, "startIndex"@))
                &&& is_text(member(f@, "inputEncoding"@))
                &&& is_text(member(f@, "outputEncoding"@))
                &&& is_text(member(f@, "safe"@))
                &&& is_text(member(f@, "cx"@))
            },
            _ => false,
        }
    }

    open spec fn decodes_to(v: JsonValue, out: Self) -> bool {
        match v {
            JsonValue::Object(f) => {
                &&& out.title == text_of(member(f@, "title"@))
                &&& out.total_results == text_of(member(f@, "totalResults"@))
                &&& out.search_terms == text_of(member(f@, "searchTerms"@))
                &&& out.count == integer_of(member(f@, "count"@))
                &&& out.start_index == integer_of(member(f@, "startIndex"@))
                &&& out.input_encoding == text_of(member(f@, "inputEncoding"@))
                &&& out.output_encoding == text_of(member(f@, "outputEncoding"@))
                &&& out.safe == text_of(member(f@, "safe"@))
                &&& out.cx == text_of(member(f@, "cx"@))
            },
            _ => false,
        }
    }

    open spec fn error_of(v: JsonValue) -> DecodeError {
        match v {
            JsonValue::Object(f) => {
                if !is_text(member(f@, "title"@)) {
                    member_error(member(f@, "title"@), "title")
                } else if !is_text(member(f@, "totalResults"@)) {
                    member_error(member(f@, "totalResults"@), "totalResults")
                } else if !is_text(member(f@, "searchTerms"@)) {
                    member_error(member(f@, "searchTerms"@), "searchTerms")
                } else if !is_integer(member(f@, "count"@)) {
                    member_error(member(f@, "count"@), "count")
                } else if !is_integer(member(f@, "startIndex"@)) {
                    member_error(member(f@, "startIndex"@), "startIndex")
                } else if !is_text(member(f@, "inputEncoding"@)) {
                    member_error(member(f@, "inputEncoding"@), "inputEncoding")
                } else if !is_text(member(f@, "outputEncoding"@)) {
                    member_error(member(f@, "outputEncoding"@), "outputEncoding")
                } else if !is_text(member(f@, "safe"@)) {
                    member_error(member(f@, "safe"@), "safe")
                } else if !is_text(member(f@, "cx"@)) {
                    member_error(member(f@, "cx"@), "cx")
                } else {
                    DecodeError::Document
                }
            },
            _ => DecodeError::Document,
        }
    }

    fn from_json(v: &JsonValue) -> (r: Result<Self, DecodeError>) {
        match v {
            JsonValue::Object(f) => {
                let title = text_member(f, "title")?;
                let total_results = text_member(f, "totalResults")?;
                let search_terms = text_member(f, "searchTerms")?;
                let count = integer_member(f, "count")?;
                let start_index = integer_member(f, "startIndex")?;
                let input_encoding = text_member(f, "inputEncoding")?;
                let output_encoding = text_member(f, "outputEncoding")?;
                let safe = text_member(f, "safe")?;
                let cx = text_member(f, "cx")?;
                Ok(NextPage { title, total_results, search_terms, count, start_index, input_encoding, output_encoding, safe, cx })
            },
            _ => Err(DecodeError::Document),
        }
    }
}

/// The search engine that answered.
#[derive(Debug, Clone)]
pub struct Context {
    /// Its name.
    pub title: String,
}

impl FromJson for Context {
    open spec fn shaped(v: JsonValue) -> bool {
        match v {
            JsonValue::Object(f) => {
                &&& is_text(member(f@, "title"@))
            },
            _ => false,
        }
    }

    open spec fn decodes_to(v: JsonValue, out: Self) -> bool {
        match v {
            JsonValue::Object(f) => {
                &&& out.title == text_of(member(f@, "title"@))
            },
            _ => false,
        }
    }

    open spec fn error_of(v: JsonValue) -> DecodeError {
        match v {
            JsonValue::Object(f) => {
                if !is_text(member(f@, "title"@)) {
                    member_error(member(f@, "title"@), "title")
                } else {
                    DecodeError::Document
                }
            },
            _ => DecodeError::Document,
        }
    }

    fn from_json(v: &JsonValue) -> (r: Result<Self, DecodeError>) {
        match v {
            JsonValue::Object(f) => {
                let title = text_member(f, "title")?;
                Ok(Context { title })
            },
            _ => Err(DecodeError::Document),
        }
    }
}

/// Timing and size of a search.
#[derive(Debug, Clone)]
pub struct SearchInformation {
    /// How long the search took, in seconds, as the JSON text of the number.
    pub search_time: String,
    /// The same, formatted for display.
    pub formatted_search_time: String,
    /// The total number of results, as text.
    pub total_results: String,
    /// The same, formatted for display.
    pub formatted_total_results: String,
}

impl FromJson for SearchInformation {
    open spec fn shaped(v: JsonValue) -> bool {
        match v {
            JsonValue::Object(f) => {
                &&& is_number(member(f@, "searchTime"@))
                &&& is_text(member(f@, "formattedSearchTime"@))
                &&& is_text(member(f@, "totalResults"@))
                &&& is_text(member(f@, "formattedTotalResults"@))
            },
            _ => false,
        }
    }

    open spec fn decodes_to(v: JsonValue, out: Self) -> bool {
        match v {
            JsonValue::Object(f) => {
                &&& out.search_time == number_text_of(member(f@, "searchTime"@))
                &&& out.formatted_search_time == text_of(member(f@, "formattedSearchTime"@))
                &&& out.total_results == text_of(member(f@, "totalResults"@))
                &&& out.formatted_total_results == text_of(member(f@, "formattedTotalResults"@))
            },
            _ => false,
        }
    }

    open spec fn error_of(v: JsonValue) -> DecodeError {
        match v {
            JsonValue::Object(f) => {
                if !is_number(member(f@, "searchTime"@)) {
                    member_error(member(f@, "searchTime"@), "searchTime")
                } else if !is_text(member(f@, "formattedSearchTime"@)) {
                    member_error(member(f@, "formattedSearchTime"@), "formattedSearchTime")
                } else if !is_text(member(f@, "totalResults"@)) {
                    member_error(member(f@, "totalResults"@), "totalResults")
                } else if !is_text(member(f@, "formattedTotalResults"@)) {
                    member_error(member(f@, "formattedTotalResults"@), "formattedTotalResults")
                } else {
                    DecodeError::Document
                }
            },
            _ => DecodeError::Document,
        }
    }

    fn from_json(v: &JsonValue) -> (r: Result<Self, DecodeError>) {
        match v {
            JsonValue::Object(f) => {
                let search_time = number_text_member(f, "searchTime")?;
                let formatted_search_time = text_member(f, "formattedSearchTime")?;
                let total_results = text_member(f, "totalResults")?;
                let formatted_total_results = text_member(f, "formattedTotalResults")?;
                Ok(SearchInformation { search_time, formatted_search_time, total_results, formatted_total_results })
            },
            _ => Err(DecodeError::Document),
        }
    }
}

/// One web search result.
#[derive(Debug, Clone)]
pub struct SearchItem {
    /// The resource type.
    pub kind: String,
    /// The title of the page.
    pub title: String,
    /// The address of the page.
    pub link: String,
    /// An excerpt of the page.
    pub snippet: String,
    /// The cached copy of the page, when there is one.
    pub cache_id: Option<String>,
}

impl FromJson for SearchItem {
    open spec fn shaped(v: JsonValue) -> bool {
        match v {
            JsonValue::Object(f) => {
                &&& is_text(member(f@, "kind"@))
                &&& is_text(member(f@, "title"@))
                &&& is_text(member(f@, "link"@))
                &&& is_text(member(f@, "snippet"@))
                &&& is_opt_text(member(f@, "cacheId"@))
            },
            _ => false,
        }
    }

    open spec fn decodes_to(v: JsonValue, out: Self) -> bool {
        match v {
            JsonValue::Object(f) => {
                &&& out.kind == text_of(member(f@, "kind"@))
                &&& out.title == text_of(member(f@, "title"@))
                &&& out.link == text_of(member(f@, "link"@))
                &&& out.snippet == text_of(member(f@, "snippet"@))
                &&& out.cache_id == opt_text_of(member(f@, "cacheId"@))
            },
            _ => false,
        }
    }

    open spec fn error_of(v: JsonValue) -> DecodeError {
        match v {
            JsonValue::Object(f) => {
                if !is_text(member(f@, "kind"@)) {
                    member_error(member(f@, "kind"@), "kind")
                } else if !is_text(member(f@, "title"@)) {
                    member_error(member(f@, "title"@), "title")
                } else if !is_text(member(f@, "link"@)) {
                    member_error(member(f@, "link"@), "link")
                } else if !is_text(member(f@, "snippet"@)) {
                    member_error(member(f@, "snippet"@), "snippet")
                } else if !is_opt_text(member(f@, "cacheId"@)) {
                    member_error(member(f@, "cacheId"@), "cacheId")
                } else {
                    DecodeError::Document
                }
            },
            _ => DecodeError::Document,
        }
    }

    fn from_json(v: &JsonValue) -> (r: Result<Self, DecodeError>) {
        match v {
            JsonValue::Object(f) => {
                let kind = text_member(f, "kind")?;
                let title = text_member(f, "title")?;
                let link = text_member(f, "link")?;
                let snippet = text_member(f, "snippet")?;
                let cache_id = opt_text_member(f, "cacheId")?;
                Ok(SearchItem { kind, title, link, snippet, cache_id })
            },
            _ => Err(DecodeError::Document),
        }
    }
}

/// The request that a page of results answers.
#[derive(Debug, Clone)]
pub struct Request {
    /// A description of the query.
    pub title: String,
    /// The total number of results, as text.
    pub total_results: String,
    /// The search terms.
    pub search_terms: String,
    /// The number of results in this set.
    pub count: i64,
    /// The index of the first result of this set.
    pub start_index: i64,
    /// The encoding of the input.
    pub input_encoding: String,
    /// The encoding of the output.
    pub output_encoding: String,
    /// The safety level.
    pub safe: String,
    /// The search engine identifier.
    pub cx: String,
}

impl FromJson for Request {
    open spec fn shaped(v: JsonValue) -> bool {
        match v {
            JsonValue::Object(f) => {
                &&& is_text(member(f@, "title"@))
                &&& is_text(member(f@, "totalResults"@))
                &&& is_text(member(f@, "searchTerms"@))
                &&& is_integer(member(f@, "count"@))
                &&& is_integer(member(f@, "startIndex"@))
                &&& is_text(member(f@, "inputEncoding"@))
                &&& is_text(member(f@, "outputEncoding"@))
                &&& is_text(member(f@, "safe"@))
                &&& is_text(member(f@, "cx"@))
            },
            _ => false,
        }
    }

    open spec fn decodes_to(v: JsonValue, out: Self) -> bool {
        match v {
            JsonValue::Object(f) => {
                &&& out.title == text_of(member(f@, "title"@))
                &&& out.total_results == text_of(member(f@, "totalResults"@))
                &&& out.search_terms == text_of(member(f@, "searchTerms"@))
                &&& out.count == integer_of(member(f@, "count"@))
                &&& out.start_index == integer_of(member(f@, "startIndex"@))
                &&& out.input_encoding == text_of(member(f@, "inputEncoding"@))
                &&& out.output_encoding == text_of(member(f@, "outputEncoding"@))
                &&& out.safe == text_of(member(f@, "safe"@))
                &&& out.cx == text_of(member(f@, "cx"@))
            },
            _ => false,
        }
    }

    open spec fn error_of(v: JsonValue) -> DecodeError {
        match v {
            JsonValue::Object(f) => {
                if !is_text(member(f@, "title"@)) {
                    member_error(member(f@, "title"@), "title")
                } else if !is_text(member(f@, "totalResults"@)) {
                    member_error(member(f@, "totalResults"@), "totalResults")
                } else if !is_text(member(f@, "searchTerms"@)) {
                    member_error(member(f@, "searchTerms"@), "searchTerms")
                } else if !is_integer(member(f@, "count"@)) {
                    member_error(member(f@, "count"@), "count")
                } else if !is_integer(member(f@, "startIndex"@)) {
                    member_error(member(f@, "startIndex"@), "startIndex")
                } else if !is_text(member(f@, "inputEncoding"@)) {
                    member_error(member(f@, "inputEncoding"@), "inputEncoding")
                } else if !is_text(member(f@, "outputEncoding"@)) {
                    member_error(member(f@, "outputEncoding"@), "outputEncoding")
                } else if !is_text(member(f@, "safe"@)) {
                    member_error(member(f@, "safe"@), "safe")
                } else if !is_text(member(f@, "cx"@)) {
                    member_error(member(f@, "cx"@), "cx")
                } else {
                    DecodeError::Document
                }
            },
            _ => DecodeError::Document,
        }
    }

    fn from_json(v: &JsonValue) -> (r: Result<Self, DecodeError>) {
        match v {
            JsonValue::Object(f) => {
                let title = text_member(f, "title")?;
                let total_results = text_member(f, "totalResults")?;
                let search_terms = text_member(f, "searchTerms")?;
                let count = integer_member(f, "count")?;
                let start_index = integer_member(f, "startIndex")?;
                let input_encoding = text_member(f, "inputEncoding")?;
                let output_encoding = text_member(f, "outputEncoding")?;
                let safe = text_member(f, "safe")?;
                let cx = text_member(f, "cx")?;
                Ok(Request { title, total_results, search_terms, count, start_index, input_encoding, output_encoding, safe, cx })
            },
            _ => Err(DecodeError::Document),
        }
    }
}

} // verus!
