use search_clients::google::SearchRequest;
use search_clients::youtube::YoutubeSearchRequest;
use search_clients::youtube_options::{
    ChannelType, Order, SafeSearch, Topic, Type, VideoDefinition, VideoDimension,
};

fn empty_youtube_request() -> YoutubeSearchRequest {
    YoutubeSearchRequest {
        part: None,
        channel_id: None,
        channel_type: None,
        event_type: None,
        location: None,
        location_radius: None,
        max_results: None,
        on_behalf_of_content_owner: None,
        order: None,
        page_token: None,
        published_after: None,
        published_before: None,
        q: None,
        region_code: None,
        relevance_language: None,
        safe_search: None,
        topic_id: None,
        type_: None,
        video_caption: None,
        video_category_id: None,
        video_definition: None,
        video_dimension: None,
        video_duration: None,
        video_embeddable: None,
        video_license: None,
        video_paid_product_placement: None,
        video_syndicated: None,
        video_type: None,
    }
}

fn empty_search_request() -> SearchRequest {
    SearchRequest {
        q: None,
        c2coff: None,
        cr: None,
        cx: None,
        date_restrict: None,
        exact_terms: None,
        exclude_terms: None,
        file_type: None,
        filter: None,
        gl: None,
        high_range: None,
        hl: None,
        hq: None,
        img_color_type: None,
        img_dominant_color: None,
        img_size: None,
        img_type: None,
        link_site: None,
        low_range: None,
        lr: None,
        num: None,
        or_terms: None,
        related_site: None,
        rights: None,
        safe: None,
        search_type: None,
        site_search: None,
        site_search_filter: None,
        sort: None,
        start: None,
    }
}

fn pairs(params: &[(&'static str, String)]) -> Vec<(String, String)> {
    params.iter().map(|(k, v)| (k.to_string(), v.clone())).collect()
}

fn pair(k: &str, v: &str) -> (String, String) {
    (k.to_string(), v.to_string())
}

fn count(params: &[(&'static str, String)], name: &str) -> usize {
    params.iter().filter(|(k, _)| *k == name).count()
}

#[test]
fn youtube_empty_request_sends_only_key() {
    let params = empty_youtube_request().query_params("SECRET-REDACTED".to_string());
    assert_eq!(pairs(&params), vec![pair("key", "SECRET-REDACTED")]);
}

#[test]
fn youtube_options_follow_key_in_order() {
    let mut req = empty_youtube_request();
    req.part = Some("snippet".to_string());
    req.q = Some("cats|dogs".to_string());
    req.order = Some(Order::ViewCount);
    req.type_ = Some(Type::Video);
    req.video_definition = Some(VideoDefinition::High);
    req.max_results = Some(25);
    let params = req.query_params("k1".to_string());
    assert_eq!(
        pairs(&params),
        vec![
            pair("key", "k1"),
            pair("part", "snippet"),
            pair("maxResults", "25"),
            pair("order", "viewCount"),
            pair("q", "cats|dogs"),
            pair("type", "video"),
            pair("videoDefinition", "high"),
        ]
    );
}

#[test]
fn youtube_enumerated_options_use_wire_literals() {
    let mut req = empty_youtube_request();
    req.video_dimension = Some(VideoDimension::_3d);
    req.topic_id = Some(Topic::Music);
    req.safe_search = Some(SafeSearch::NoRestriction);
    req.channel_type = Some(ChannelType::Show);
    let params = req.query_params("k".to_string());
    assert_eq!(
        pairs(&params),
        vec![
            pair("key", "k"),
            pair("channelType", "show"),
            pair("safeSearch", "none"),
            pair("topicId", "/m/04rlf"),
            pair("videoDimension", "3d"),
        ]
    );
}

#[test]
fn youtube_integer_option_in_decimal() {
    let mut req = empty_youtube_request();
    req.max_results = Some(-3);
    let params = req.query_params("k".to_string());
    assert_eq!(pairs(&params), vec![pair("key", "k"), pair("maxResults", "-3")]);
    req.max_results = Some(1234567890123);
    let params = req.query_params("k".to_string());
    assert_eq!(params[1].1, "1234567890123");
}

#[test]
fn youtube_each_set_option_sent_once() {
    let mut req = empty_youtube_request();
    req.channel_id = Some("UC1".to_string());
    req.page_token = Some("tok".to_string());
    req.video_caption = None;
    let params = req.query_params("k".to_string());
    assert_eq!(count(&params, "channelId"), 1);
    assert_eq!(count(&params, "pageToken"), 1);
    assert_eq!(count(&params, "videoCaption"), 0);
    assert_eq!(count(&params, "q"), 0);
    assert_eq!(count(&params, "key"), 1);
    assert_eq!(params.len(), 3);
}

#[test]
fn search_request_sends_key_engine_then_set_options_in_order() {
    let mut req = empty_search_request();
    req.q = Some("reliance industries".to_string());
    req.c2coff = Some("1".to_string());
    req.cr = Some("countryIN".to_string());
    req.date_restrict = Some("d1".to_string());
    req.filter = Some("1".to_string());
    req.lr = Some("lang_en".to_string());
    let params = req.query_params("key1".to_string(), "engine1".to_string());
    assert_eq!(
        pairs(&params),
        vec![
            pair("key", "key1"),
            pair("cx", "engine1"),
            pair("q", "reliance industries"),
            pair("c2coff", "1"),
            pair("cr", "countryIN"),
            pair("dateRestrict", "d1"),
            pair("filter", "1"),
            pair("lr", "lang_en"),
        ]
    );
}

#[test]
fn search_request_without_query_sends_no_query() {
    let params = empty_search_request().query_params("a".to_string(), "b".to_string());
    assert_eq!(pairs(&params), vec![pair("key", "a"), pair("cx", "b")]);
    assert_eq!(count(&params, "q"), 0);
}

#[test]
fn search_request_engine_option_replaces_configured_engine() {
    let mut req = empty_search_request();
    req.cx = Some("other".to_string());
    req.start = Some("11".to_string());
    let params = req.query_params("a".to_string(), "b".to_string());
    assert_eq!(
        pairs(&params),
        vec![pair("key", "a"), pair("cx", "other"), pair("start", "11")]
    );
    assert_eq!(count(&params, "cx"), 1);
}

#[test]
fn search_request_every_option_under_upstream_name() {
    let mut req = empty_search_request();
    req.c2coff = Some("v0".to_string());
    req.cr = Some("v1".to_string());
    req.date_restrict = Some("v3".to_string());
    req.exact_terms = Some("v4".to_string());
    req.exclude_terms = Some("v5".to_string());
    req.file_type = Some("v6".to_string());
    req.filter = Some("v7".to_string());
    req.gl = Some("v8".to_string());
    req.high_range = Some("v9".to_string());
    req.hl = Some("v10".to_string());
    req.hq = Some("v11".to_string());
    req.img_color_type = Some("v12".to_string());
    req.img_dominant_color = Some("v13".to_string());
    req.img_size = Some("v14".to_string());
    req.img_type = Some("v15".to_string());
    req.link_site = Some("v16".to_string());
    req.low_range = Some("v17".to_string());
    req.lr = Some("v18".to_string());
    req.num = Some("v19".to_string());
    req.or_terms = Some("v20".to_string());
    req.related_site = Some("v21".to_string());
    req.rights = Some("v22".to_string());
    req.safe = Some("v23".to_string());
    req.search_type = Some("v24".to_string());
    req.site_search = Some("v25".to_string());
    req.site_search_filter = Some("v26".to_string());
    req.sort = Some("v27".to_string());
    req.start = Some("v28".to_string());
    let params = req.query_params("a".to_string(), "b".to_string());
    assert_eq!(count(&params, "c2coff"), 1);
    assert!(params.iter().any(|(k, v)| *k == "c2coff" && v == "v0"));
    assert_eq!(count(&params, "cr"), 1);
    assert!(params.iter().any(|(k, v)| *k == "cr" && v == "v1"));
    assert_eq!(count(&params, "dateRestrict"), 1);
    assert!(params.iter().any(|(k, v)| *k == "dateRestrict" && v == "v3"));
    assert_eq!(count(&params, "exactTerms"), 1);
    assert!(params.iter().any(|(k, v)| *k == "exactTerms" && v == "v4"));
    assert_eq!(count(&params, "excludeTerms"), 1);
    assert!(params.iter().any(|(k, v)| *k == "excludeTerms" && v == "v5"));
    assert_eq!(count(&params, "fileType"), 1);
    assert!(params.iter().any(|(k, v)| *k == "fileType" && v == "v6"));
    assert_eq!(count(&params, "filter"), 1);
    assert!(params.iter().any(|(k, v)| *k == "filter" && v == "v7"));
    assert_eq!(count(&params, "gl"), 1);
    assert!(params.iter().any(|(k, v)| *k == "gl" && v == "v8"));
    assert_eq!(count(&params, "highRange"), 1);
    assert!(params.iter().any(|(k, v)| *k == "highRange" && v == "v9"));
    assert_eq!(count(&params, "hl"), 1);
    assert!(params.iter().any(|(k, v)| *k == "hl" && v == "v10"));
    assert_eq!(count(&params, "hq"), 1);
    assert!(params.iter().any(|(k, v)| *k == "hq" && v == "v11"));
    assert_eq!(count(&params, "imgColorType"), 1);
    assert!(params.iter().any(|(k, v)| *k == "imgColorType" && v == "v12"));
    assert_eq!(count(&params, "imgDominantColor"), 1);
    assert!(params.iter().any(|(k, v)| *k == "imgDominantColor" && v == "v13"));
    assert_eq!(count(&params, "imgSize"), 1);
    assert!(params.iter().any(|(k, v)| *k == "imgSize" && v == "v14"));
    assert_eq!(count(&params, "imgType"), 1);
    assert!(params.iter().any(|(k, v)| *k == "imgType" && v == "v15"));
    assert_eq!(count(&params, "linkSite"), 1);
    assert!(params.iter().any(|(k, v)| *k == "linkSite" && v == "v16"));
    assert_eq!(count(&params, "lowRange"), 1);
    assert!(params.iter().any(|(k, v)| *k == "lowRange" && v == "v17"));
    assert_eq!(count(&params, "lr"), 1);
    assert!(params.iter().any(|(k, v)| *k == "lr" && v == "v18"));
    assert_eq!(count(&params, "num"), 1);
    assert!(params.iter().any(|(k, v)| *k == "num" && v == "v19"));
    assert_eq!(count(&params, "orTerms"), 1);
    assert!(params.iter().any(|(k, v)| *k == "orTerms" && v == "v20"));
    assert_eq!(count(&params, "relatedSite"), 1);
    assert!(params.iter().any(|(k, v)| *k == "relatedSite" && v == "v21"));
    assert_eq!(count(&params, "rights"), 1);
    assert!(params.iter().any(|(k, v)| *k == "rights" && v == "v22"));
    assert_eq!(count(&params, "safe"), 1);
    assert!(params.iter().any(|(k, v)| *k == "safe" && v == "v23"));
    assert_eq!(count(&params, "searchType"), 1);
    assert!(params.iter().any(|(k, v)| *k == "searchType" && v == "v24"));
    assert_eq!(count(&params, "siteSearch"), 1);
    assert!(params.iter().any(|(k, v)| *k == "siteSearch" && v == "v25"));
    assert_eq!(count(&params, "siteSearchFilter"), 1);
    assert!(params.iter().any(|(k, v)| *k == "siteSearchFilter" && v == "v26"));
    assert_eq!(count(&params, "sort"), 1);
    assert!(params.iter().any(|(k, v)| *k == "sort" && v == "v27"));
    assert_eq!(count(&params, "start"), 1);
    assert!(params.iter().any(|(k, v)| *k == "start" && v == "v28"));
    assert_eq!(count(&params, "cx"), 1);
    assert_eq!(count(&params, "q"), 0);
    assert_eq!(params.len(), 2 + 28);
}
