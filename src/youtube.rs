//! The video search endpoint: its request options, their projection into
//! query parameters, and the decoding of its response.
use vstd::prelude::*;
use crate::json::{
    DecodeError, FromJson, JsonValue, array_decodes, array_member, array_member_error,
    array_shaped, is_opt_integer, is_opt_text, is_text, member, member_error, object_decodes,
    object_error, object_member, object_shaped, opt_integer_member, opt_integer_of,
    opt_text_member, opt_text_of, text_member, text_of,
};
use crate::params::{
    choice_entry, count_name, distinct_names, integer_entry, lemma_count_concat,
    lemma_count_present, lemma_count_push, opt_decimal, opt_view, opt_wire, params_view, present,
    project, push_entry, table_view, text_entry, OptionEntry, QueryParam,
};
use crate::youtube_options::{
    ChannelType, EventType, Order, SafeSearch, Topic, Type, VideoCaption, VideoDefinition,
    VideoDimension, VideoDuration, VideoEmbeddable, VideoLicense, VideoPaidProductPlacement,
    VideoSyndicated, VideoType,
};

verus! {

/// The options of a video search, one per optional parameter of the endpoint.
#[derive(Debug, Clone)]
pub struct YoutubeSearchRequest {
    /// The resource properties the response includes.
    pub part: Option<String>,
    /// Restricts results to resources created by this channel.
    pub channel_id: Option<String>,
    /// Restricts a search to a kind of channel.
    pub channel_type: Option<ChannelType>,
    /// Restricts a search to broadcast events.
    pub event_type: Option<EventType>,
    /// Restricts results to videos near this geographical point.
    pub location: Option<String>,
    /// The greatest distance from `location` a result may have.
    pub location_radius: Option<String>,
    /// The greatest number of items in the result set.
    pub max_results: Option<i64>,
    /// The content owner on whose behalf the request is made.
    pub on_behalf_of_content_owner: Option<String>,
    /// How results are ordered.
    pub order: Option<Order>,
    /// The page of the result set to return.
    pub page_token: Option<String>,
    /// Only resources created after this instant (RFC 3339).
    pub published_after: Option<String>,
    /// Only resources created before this instant (RFC 3339).
    pub published_before: Option<String>,
    /// The query term.
    pub q: Option<String>,
    /// Returns results for this country.
    pub region_code: Option<String>,
    /// Returns results most relevant to this language.
    pub relevance_language: Option<String>,
    /// Whether restricted content is included.
    pub safe_search: Option<SafeSearch>,
    /// Only resources associated with this topic.
    pub topic_id: Option<Topic>,
    /// The kind of resource returned.
    pub type_: Option<Type>,
    /// Filters videos by captions.
    pub video_caption: Option<VideoCaption>,
    /// Filters videos by category.
    pub video_category_id: Option<String>,
    /// Filters videos by definition.
    pub video_definition: Option<VideoDefinition>,
    /// Filters videos by dimension.
    pub video_dimension: Option<VideoDimension>,
    /// Filters videos by duration.
    pub video_duration: Option<VideoDuration>,
    /// Only videos that can be embedded.
    pub video_embeddable: Option<VideoEmbeddable>,
    /// Filters videos by license.
    pub video_license: Option<VideoLicense>,
    /// Only videos with a paid product placement.
    pub video_paid_product_placement: Option<VideoPaidProductPlacement>,
    /// Only videos playable outside the platform.
    pub video_syndicated: Option<VideoSyndicated>,
    /// Filters videos by type.
    pub video_type: Option<VideoType>,
}

impl YoutubeSearchRequest {
    /// The options as (upstream name, value if set), in the order they are sent.
    pub open spec fn options(self) -> Seq<(Seq<char>, Option<Seq<char>>)> {
        seq![
            ("part"@, opt_view(self.part)),
            ("channelId"@, opt_view(self.channel_id)),
            ("channelType"@, opt_wire(self.channel_type)),
            ("eventType"@, opt_wire(self.event_type)),
            ("location"@, opt_view(self.location)),
            ("locationRadius"@, opt_view(self.location_radius)),
            ("maxResults"@, opt_decimal(self.max_results)),
            ("onBehalfOfContentOwner"@, opt_view(self.on_behalf_of_content_owner)),
            ("order"@, opt_wire(self.order)),
            ("pageToken"@, opt_view(self.page_token)),
            ("publishedAfter"@, opt_view(self.published_after)),
            ("publishedBefore"@, opt_view(self.published_before)),
            ("q"@, opt_view(self.q)),
            ("regionCode"@, opt_view(self.region_code)),
            ("relevanceLanguage"@, opt_view(self.relevance_language)),
            ("safeSearch"@, opt_wire(self.safe_search)),
            ("topicId"@, opt_wire(self.topic_id)),
            ("type"@, opt_wire(self.type_)),
            ("videoCaption"@, opt_wire(self.video_caption)),
            ("videoCategoryId"@, opt_view(self.video_category_id)),
            ("videoDefinition"@, opt_wire(self.video_definition)),
            ("videoDimension"@, opt_wire(self.video_dimension)),
            ("videoDuration"@, opt_wire(self.video_duration)),
            ("videoEmbeddable"@, opt_wire(self.video_embeddable)),
            ("videoLicense"@, opt_wire(self.video_license)),
            ("videoPaidProductPlacement"@, opt_wire(self.video_paid_product_placement)),
            ("videoSyndicated"@, opt_wire(self.video_syndicated)),
            ("videoType"@, opt_wire(self.video_type)),
        ]
    }

    /// The table of options, each under its upstream name.
    pub fn option_table(&self) -> (r: Vec<OptionEntry>)
        ensures
            table_view(r@) == self.options(),
    {
        let mut t: Vec<OptionEntry> = Vec::new();
        push_entry(&mut t, text_entry("part", &self.part));
        push_entry(&mut t, text_entry("channelId", &self.channel_id));
        push_entry(&mut t, choice_entry("channelType", &self.channel_type));
        push_entry(&mut t, choice_entry("eventType", &self.event_type));
        push_entry(&mut t, text_entry("location", &self.location));
        push_entry(&mut t, text_entry("locationRadius", &self.location_radius));
        push_entry(&mut t, integer_entry("maxResults", self.max_results));
        push_entry(&mut t, text_entry("onBehalfOfContentOwner", &self.on_behalf_of_content_owner));
        push_entry(&mut t, choice_entry("order", &self.order));
        push_entry(&mut t, text_entry("pageToken", &self.page_token));
        push_entry(&mut t, text_entry("publishedAfter", &self.published_after));
        push_entry(&mut t, text_entry("publishedBefore", &self.published_before));
        push_entry(&mut t, text_entry("q", &self.q));
        push_entry(&mut t, text_entry("regionCode", &self.region_code));
        push_entry(&mut t, text_entry("relevanceLanguage", &self.relevance_language));
        push_entry(&mut t, choice_entry("safeSearch", &self.safe_search));
        push_entry(&mut t, choice_entry("topicId", &self.topic_id));
        push_entry(&mut t, choice_entry("type", &self.type_));
        push_entry(&mut t, choice_entry("videoCaption", &self.video_caption));
        push_entry(&mut t, text_entry("videoCategoryId", &self.video_category_id));
        push_entry(&mut t, choice_entry("videoDefinition", &self.video_definition));
        push_entry(&mut t, choice_entry("videoDimension", &self.video_dimension));
        push_entry(&mut t, choice_entry("videoDuration", &self.video_duration));
        push_entry(&mut t, choice_entry("videoEmbeddable", &self.video_embeddable));
        push_entry(&mut t, choice_entry("videoLicense", &self.video_license));
        push_entry(&mut t, choice_entry("videoPaidProductPlacement", &self.video_paid_product_placement));
        push_entry(&mut t, choice_entry("videoSyndicated", &self.video_syndicated));
        push_entry(&mut t, choice_entry("videoType", &self.video_type));
        proof {
            assert(table_view(t@) =~= self.options());
        }
        t
    }
}

/// The parameters of a video search: the key first, then one for each set option.
pub open spec fn youtube_params(req: YoutubeSearchRequest, api_key: Seq<char>) -> Seq<(Seq<char>, Seq<char>)> {
    seq![("key"@, api_key)] + present(req.options())
}

impl YoutubeSearchRequest {
    /// The query parameters of this search, authenticated with `api_key`.
    pub fn query_params(&self, api_key: String) -> (r: Vec<QueryParam>)
        ensures
            params_view(r@) == youtube_params(*self, api_key@),
    {
        let fixed: Vec<QueryParam> = vec![("key", api_key)];
        let table = self.option_table();
        proof {
            assert(params_view(fixed@) =~= seq![("key"@, api_key@)]);
        }
        project(fixed, &table)
    }
}

/// The upstream names of the options are pairwise distinct and differ from
/// the key's.
pub proof fn lemma_youtube_names_distinct(req: YoutubeSearchRequest)
    ensures
        distinct_names(req.options()),
        forall|j: int| 0 <= j < req.options().len() ==> req.options()[j].0 != "key"@,
{
    let t = req.options();
    reveal_strlit("key");
    assert("key"@ =~= seq!['k', 'e', 'y']);
    reveal_strlit("part");
    reveal_strlit("channelId");
    reveal_strlit("channelType");
    reveal_strlit("eventType");
    reveal_strlit("location");
    reveal_strlit("locationRadius");
    reveal_strlit("maxResults");
    reveal_strlit("onBehalfOfContentOwner");
    reveal_strlit("order");
    reveal_strlit("pageToken");
    reveal_strlit("publishedAfter");
    reveal_strlit("publishedBefore");
    reveal_strlit("q");
    reveal_strlit("regionCode");
    reveal_strlit("relevanceLanguage");
    reveal_strlit("safeSearch");
    reveal_strlit("topicId");
    reveal_strlit("type");
    reveal_strlit("videoCaption");
    reveal_strlit("videoCategoryId");
    reveal_strlit("videoDefinition");
    reveal_strlit("videoDimension");
    reveal_strlit("videoDuration");
    reveal_strlit("videoEmbeddable");
    reveal_strlit("videoLicense");
    reveal_strlit("videoPaidProductPlacement");
    reveal_strlit("videoSyndicated");
    reveal_strlit("videoType");
    assert("part"@ =~= seq!['p', 'a', 'r', 't']);
    assert("channelId"@ =~= seq!['c', 'h', 'a', 'n', 'n', 'e', 'l', 'I', 'd']);
    assert("channelType"@ =~= seq!['c', 'h', 'a', 'n', 'n', 'e', 'l', 'T', 'y', 'p', 'e']);
    assert("eventType"@ =~= seq!['e', 'v', 'e', 'n', 't', 'T', 'y', 'p', 'e']);
    assert("location"@ =~= seq!['l', 'o', 'c', 'a', 't', 'i', 'o', 'n']);
    assert("locationRadius"@ =~= seq!['l', 'o', 'c', 'a', 't', 'i', 'o', 'n', 'R', 'a', 'd', 'i', 'u', 's']);
    assert("maxResults"@ =~= seq!['m', 'a', 'x', 'R', 'e', 's', 'u', 'l', 't', 's']);
    assert("onBehalfOfContentOwner"@ =~= seq!['o', 'n', 'B', 'e', 'h', 'a', 'l', 'f', 'O', 'f', 'C', 'o', 'n', 't', 'e', 'n', 't', 'O', 'w', 'n', 'e', 'r']);
    assert("order"@ =~= seq!['o', 'r', 'd', 'e', 'r']);
    assert("pageToken"@ =~= seq!['p', 'a', 'g', 'e', 'T', 'o', 'k', 'e', 'n']);
    assert("publishedAfter"@ =~= seq!['p', 'u', 'b', 'l', 'i', 's', 'h', 'e', 'd', 'A', 'f', 't', 'e', 'r']);
    assert("publishedBefore"@ =~= seq!['p', 'u', 'b', 'l', 'i', 's', 'h', 'e', 'd', 'B', 'e', 'f', 'o', 'r', 'e']);
    assert("q"@ =~= seq!['q']);
    assert("regionCode"@ =~= seq!['r', 'e', 'g', 'i', 'o', 'n', 'C', 'o', 'd', 'e']);
    assert("relevanceLanguage"@ =~= seq!['r', 'e', 'l', 'e', 'v', 'a', 'n', 'c', 'e', 'L', 'a', 'n', 'g', 'u', 'a', 'g', 'e']);
    assert("safeSearch"@ =~= seq!['s', 'a', 'f', 'e', 'S', 'e', 'a', 'r', 'c', 'h']);
    assert("topicId"@ =~= seq!['t', 'o', 'p', 'i', 'c', 'I', 'd']);
    assert("type"@ =~= seq!['t', 'y', 'p', 'e']);
    assert("videoCaption"@ =~= seq!['v', 'i', 'd', 'e', 'o', 'C', 'a', 'p', 't', 'i', 'o', 'n']);
    assert("videoCategoryId"@ =~= seq!['v', 'i', 'd', 'e', 'o', 'C', 'a', 't', 'e', 'g', 'o', 'r', 'y', 'I', 'd']);
    assert("videoDefinition"@ =~= seq!['v', 'i', 'd', 'e', 'o', 'D', 'e', 'f', 'i', 'n', 'i', 't', 'i', 'o', 'n']);
    assert("videoDimension"@ =~= seq!['v', 'i', 'd', 'e', 'o', 'D', 'i', 'm', 'e', 'n', 's', 'i', 'o', 'n']);
    assert("videoDuration"@ =~= seq!['v', 'i', 'd', 'e', 'o', 'D', 'u', 'r', 'a', 't', 'i', 'o', 'n']);
    assert("videoEmbeddable"@ =~= seq!['v', 'i', 'd', 'e', 'o', 'E', 'm', 'b', 'e', 'd', 'd', 'a', 'b', 'l', 'e']);
    assert("videoLicense"@ =~= seq!['v', 'i', 'd', 'e', 'o', 'L', 'i', 'c', 'e', 'n', 's', 'e']);
    assert("videoPaidProductPlacement"@ =~= seq!['v', 'i', 'd', 'e', 'o', 'P', 'a', 'i', 'd', 'P', 'r', 'o', 'd', 'u', 'c', 't', 'P', 'l', 'a', 'c', 'e', 'm', 'e', 'n', 't']);
    assert("videoSyndicated"@ =~= seq!['v', 'i', 'd', 'e', 'o', 'S', 'y', 'n', 'd', 'i', 'c', 'a', 't', 'e', 'd']);
    assert("videoType"@ =~= seq!['v', 'i', 'd', 'e', 'o', 'T', 'y', 'p', 'e']);
}

/// Every option that is set is sent exactly once, under its upstream name and
/// with its value; an option that is not set is not sent at all.
pub proof fn lemma_youtube_options_sent_once(req: YoutubeSearchRequest, api_key: Seq<char>, i: int)
    requires
        0 <= i < req.options().len(),
    ensures
        count_name(youtube_params(req, api_key), req.options()[i].0) == (if req.options()[i].1 is Some {
            1nat
        } else {
            0nat
        }),
        req.options()[i].1 is Some ==> youtube_params(req, api_key).contains(
            (req.options()[i].0, req.options()[i].1->0),
        ),
{
    let t = req.options();
    lemma_youtube_names_distinct(req);
    lemma_count_present(t, i);
    lemma_count_concat(seq![("key"@, api_key)], present(t), t[i].0);
    lemma_count_push(Seq::empty(), ("key"@, api_key), t[i].0);
    assert(seq![("key"@, api_key)] =~= Seq::<(Seq<char>, Seq<char>)>::empty().push(("key"@, api_key)));
    if t[i].1 is Some {
        let k = choose|k: int| 0 <= k < present(t).len() && present(t)[k] == (t[i].0, t[i].1->0);
        assert(youtube_params(req, api_key)[k + 1] == (t[i].0, t[i].1->0));
    }
}

/// A page of video search results.
#[derive(Debug, Clone)]
pub struct YoutubeSearchResponse {
    /// The resource type.
    pub kind: String,
    /// The entity tag of the page.
    pub etag: String,
    /// Paging information.
    pub page_info: PageInfo,
    /// The results, in the order the endpoint gave them.
    pub items: Vec<YoutubeItem>,
}

impl FromJson for YoutubeSearchResponse {
    open spec fn shaped(v: JsonValue) -> bool {
        match v {
            JsonValue::Object(f) => {
                &&& is_text(member(f@, "kind"@))
                &&& is_text(member(f@, "etag"@))
                &&& object_shaped::<PageInfo>(member(f@, "pageInfo"@))
                &&& array_shaped::<YoutubeItem>(member(f@, "items"@))
            },
            _ => false,
        }
    }

    open spec fn decodes_to(v: JsonValue, out: Self) -> bool {
        match v {
            JsonValue::Object(f) => {
                &&& out.kind == text_of(member(f@, "kind"@))
                &&& out.etag == text_of(member(f@, "etag"@))
                &&& object_decodes::<PageInfo>(member(f@, "pageInfo"@), out.page_info)
                &&& array_decodes::<YoutubeItem>(member(f@, "items"@), out.items@)
            },
            _ => false,
        }
    }

    open spec fn error_of(v: JsonValue) -> DecodeError {
        match v {
            JsonValue::Object(f) => {
                if !is_text(member(f@, "kind"@)) {
                    member_error(member(f@, "kind"@), "kind")
                } else if !is_text(member(f@, "etag"@)) {
                    member_error(member(f@, "etag"@), "etag")
                } else if !object_shaped::<PageInfo>(member(f@, "pageInfo"@)) {
                    object_error::<PageInfo>(member(f@, "pageInfo"@), "pageInfo")
                } else if !array_shaped::<YoutubeItem>(member(f@, "items"@)) {
                    array_member_error::<YoutubeItem>(member(f@, "items"@), "items")
                } else {
                    DecodeError::Document
                }
            },
            _ => DecodeError::Document,
        }
    }

    fn from_json(v: &JsonValue) -> (r: Result<Self, DecodeError>) {
        match v {
            JsonValue::Object(f) => {
                let kind = text_member(f, "kind")?;
                let etag = text_member(f, "etag")?;
                let page_info = object_member(f, "pageInfo")?;
                let items = array_member(f, "items")?;
                Ok(YoutubeSearchResponse { kind, etag, page_info, items })
            },
            _ => Err(DecodeError::Document),
        }
    }
}

/// Paging information of a result page.
#[derive(Debug, Clone)]
pub struct PageInfo {
    /// The total number of results, if given.
    pub total_results: Option<i64>,
    /// The number of results per page, if given.
    pub results_per_page: Option<i64>,
}

impl FromJson for PageInfo {
    open spec fn shaped(v: JsonValue) -> bool {
        match v {
            JsonValue::Object(f) => {
                &&& is_opt_integer(member(f@, "totalResults"@))
                &&& is_opt_integer(member(f@, "resultsPerPage"@))
            },
            _ => false,
        }
    }

    open spec fn decodes_to(v: JsonValue, out: Self) -> bool {
        match v {
            JsonValue::Object(f) => {
                &&& out.total_results == opt_integer_of(member(f@, "totalResults"@))
                &&& out.results_per_page == opt_integer_of(member(f@, "resultsPerPage"@))
            },
            _ => false,
        }
    }

    open spec fn error_of(v: JsonValue) -> DecodeError {
        match v {
            JsonValue::Object(f) => {
                if !is_opt_integer(member(f@, "totalResults"@)) {
                    member_error(member(f@, "totalResults"@), "totalResults")
                } else if !is_opt_integer(member(f@, "resultsPerPage"@)) {
                    member_error(member(f@, "resultsPerPage"@), "resultsPerPage")
                } else {
                    DecodeError::Document
                }
            },
            _ => DecodeError::Document,
        }
    }

    fn from_json(v: &JsonValue) -> (r: Result<Self, DecodeError>) {
        match v {
            JsonValue::Object(f) => {
                let total_results = opt_integer_member(f, "totalResults")?;
                let results_per_page = opt_integer_member(f, "resultsPerPage")?;
                Ok(PageInfo { total_results, results_per_page })
            },
            _ => Err(DecodeError::Document),
        }
    }
}

/// One video search result.
#[derive(Debug, Clone)]
pub struct YoutubeItem {
    /// The resource type.
    pub kind: String,
    /// The entity tag of the result.
    pub etag: String,
    /// What the result refers to.
    pub id: YoutubeId,
    /// Its title, description and publication data.
    pub snippet: YoutubeSnippet,
}

impl FromJson for YoutubeItem {
    open spec fn shaped(v: JsonValue) -> bool {
        match v {
            JsonValue::Object(f) => {
                &&& is_text(member(f@, "kind"@))
                &&& is_text(member(f@, "etag"@))
                &&& object_shaped::<YoutubeId>(member(f@, "id"@))
                &&& object_shaped::<YoutubeSnippet>(member(f@, "snippet"@))
            },
            _ => false,
        }
    }

    open spec fn decodes_to(v: JsonValue, out: Self) -> bool {
        match v {
            JsonValue::Object(f) => {
                &&& out.kind == text_of(member(f@, "kind"@))
                &&& out.etag == text_of(member(f@, "etag"@))
                &&& object_decodes::<YoutubeId>(member(f@, "id"@), out.id)
                &&& object_decodes::<YoutubeSnippet>(member(f@, "snippet"@), out.snippet)
            },
            _ => false,
        }
    }

    open spec fn error_of(v: JsonValue) -> DecodeError {
        match v {
            JsonValue::Object(f) => {
                if !is_text(member(f@, "kind"@)) {
                    member_error(member(f@, "kind"@), "kind")
                } else if !is_text(member(f@, "etag"@)) {
                    member_error(member(f@, "etag"@), "etag")
                } else if !object_shaped::<YoutubeId>(member(f@, "id"@)) {
                    object_error::<YoutubeId>(member(f@, "id"@), "id")
                } else if !object_shaped::<YoutubeSnippet>(member(f@, "snippet"@)) {
                    object_error::<YoutubeSnippet>(member(f@, "snippet"@), "snippet")
                } else {
                    DecodeError::Document
                }
            },
            _ => DecodeError::Document,
        }
    }

    fn from_json(v: &JsonValue) -> (r: Result<Self, DecodeError>) {
        match v {
            JsonValue::Object(f) => {
                let kind = text_member(f, "kind")?;
                let etag = text_member(f, "etag")?;
                let id = object_member(f, "id")?;
                let snippet = object_member(f, "snippet")?;
                Ok(YoutubeItem { kind, etag, id, snippet })
            },
            _ => Err(DecodeError::Document),
        }
    }
}

/// What a video search result refers to: a video or a channel, each
/// kept in its own field.
#[derive(Debug, Clone)]
pub struct YoutubeId {
    /// The kind of resource referred to.
    pub kind: String,
    /// The video, when the result is a video.
    pub video_id: Option<String>,
    /// The channel, when the result is a channel.
    pub channel_id: Option<String>,
}

impl FromJson for YoutubeId {
    open spec fn shaped(v: JsonValue) -> bool {
        match v {
            JsonValue::Object(f) => {
                &&& is_text(member(f@, "kind"@))
                &&& is_opt_text(member(f@, "videoId"@))
                &&& is_opt_text(member(f@, "channelId"@))
            },
            _ => false,
        }
    }

    open spec fn decodes_to(v: JsonValue, out: Self) -> bool {
        match v {
            JsonValue::Object(f) => {
                &&& out.kind == text_of(member(f@, "kind"@))
                &&& out.video_id == opt_text_of(member(f@, "videoId"@))
                &&& out.channel_id == opt_text_of(member(f@, "channelId"@))
            },
            _ => false,
        }
    }

    open spec fn error_of(v: JsonValue) -> DecodeError {
        match v {
            JsonValue::Object(f) => {
                if !is_text(member(f@, "kind"@)) {
                    member_error(member(f@, "kind"@), "kind")
                } else if !is_opt_text(member(f@, "videoId"@)) {
                    member_error(member(f@, "videoId"@), "videoId")
                } else if !is_opt_text(member(f@, "channelId"@)) {
                    member_error(member(f@, "channelId"@), "channelId")
                } else {
                    DecodeError::Document
                }
            },
            _ => DecodeError::Document,
        }
    }

    fn from_json(v: &JsonValue) -> (r: Result<Self, DecodeError>) {
        match v {
            JsonValue::Object(f) => {
                let kind = text_member(f, "kind")?;
                let video_id = opt_text_member(f, "videoId")?;
                let channel_id = opt_text_member(f, "channelId")?;
                Ok(YoutubeId { kind, video_id, channel_id })
            },
            _ => Err(DecodeError::Document),
        }
    }
}

/// The descriptive data of a video search result.
#[derive(Debug, Clone)]
pub struct YoutubeSnippet {
    /// When the resource was published.
    pub published_at: String,
    /// Its title.
    pub title: String,
    /// Its description.
    pub description: String,
    /// The title of the channel that published it.
    pub channel_title: String,
    /// When the resource was published.
    pub publish_time: String,
}

impl FromJson for YoutubeSnippet {
    open spec fn shaped(v: JsonValue) -> bool {
        match v {
            JsonValue::Object(f) => {
                &&& is_text(member(f@, "publishedAt"@))
                &&& is_text(member(f@, "title"@))
                &&& is_text(member(f@, "description"@))
                &&& is_text(member(f@, "channelTitle"@))
                &&& is_text(member(f@, "publishTime"@))
            },
            _ => false,
        }
    }

    open spec fn decodes_to(v: JsonValue, out: Self) -> bool {
        match v {
            JsonValue::Object(f) => {
                &&& out.published_at == text_of(member(f@, "publishedAt"@))
                &&& out.title == text_of(member(f@, "title"@))
                &&& out.description == text_of(member(f@, "description"@))
                &&& out.channel_title == text_of(member(f@, "channelTitle"@))
                &&& out.publish_time == text_of(member(f@, "publishTime"@))
            },
            _ => false,
        }
    }

    open spec fn error_of(v: JsonValue) -> DecodeError {
        match v {
            JsonValue::Object(f) => {
                if !is_text(member(f@, "publishedAt"@)) {
                    member_error(member(f@, "publishedAt"@), "publishedAt")
                } else if !is_text(member(f@, "title"@)) {
                    member_error(member(f@, "title"@), "title")
                } else if !is_text(member(f@, "description"@)) {
                    member_error(member(f@, "description"@), "description")
                } else if !is_text(member(f@, "channelTitle"@)) {
                    member_error(member(f@, "channelTitle"@), "channelTitle")
                } else if !is_text(member(f@, "publishTime"@)) {
                    member_error(member(f@, "publishTime"@), "publishTime")
                } else {
                    DecodeError::Document
                }
            },
            _ => DecodeError::Document,
        }
    }

    fn from_json(v: &JsonValue) -> (r: Result<Self, DecodeError>) {
        match v {
            JsonValue::Object(f) => {
                let published_at = text_member(f, "publishedAt")?;
                let title = text_member(f, "title")?;
                let description = text_member(f, "description")?;
                let channel_title = text_member(f, "channelTitle")?;
                let publish_time = text_member(f, "publishTime")?;
                Ok(YoutubeSnippet { published_at, title, description, channel_title, publish_time })
            },
            _ => Err(DecodeError::Document),
        }
    }
}

} // verus!
