use giphy::v1::gifs::{
    GetGifRequest, GetGifsRequest, RandomRequest, SearchRequest, TranslateRequest, TrendingRequest,
};
use giphy::v1::text::{decimal_string, join_with_commas};
use giphy::v1::GiphyRequest;

fn expected(items: &[(&str, &str)]) -> Vec<(String, String)> {
    items.iter().map(|(k, v)| (k.to_string(), v.to_string())).collect()
}

#[test]
fn search_request() {
    let req = SearchRequest::new("hello").with_limit(100).with_offset(5);

    assert_eq!(req.get_endpoint(), "v1/gifs/search");
    assert_eq!(req.query, "hello");
    assert_eq!(req.limit, Some(100));
    assert_eq!(req.offset, Some(5));
}

#[test]
fn trending_request() {
    let req = TrendingRequest::new()
        .with_rating("g")
        .with_limit(100)
        .with_offset(5);

    assert_eq!(req.get_endpoint(), "v1/gifs/trending");
    assert_eq!(req.rating, Some("g"));
    assert_eq!(req.limit, Some(100));
    assert_eq!(req.offset, Some(5));
}

#[test]
fn translate_request() {
    let req = TranslateRequest::new("rage").with_weirdness(10);

    assert_eq!(req.get_endpoint(), "v1/gifs/translate");
    assert_eq!(req.phrase, "rage");
    assert_eq!(req.weirdness, Some(10));
}

#[test]
fn random_request() {
    let req = RandomRequest::new().with_tag("burrito").with_rating("g");

    assert_eq!(req.get_endpoint(), "v1/gifs/random");
    assert_eq!(req.tag, Some("burrito"));
    assert_eq!(req.rating, Some("g"));
}

#[test]
fn get_gif_request() {
    let req = GetGifRequest::new("xT4uQulxzV39haRFjG");
    assert_eq!(req.get_endpoint(), "v1/gifs/xT4uQulxzV39haRFjG");
}

#[test]
fn get_gifs_request() {
    let ids = vec!["xT4uQulxzV39haRFjG", "3og0IPxMM0erATueVW"];
    let req = GetGifsRequest::new(ids);
    assert_eq!(req.get_endpoint(), "v1/gifs");
    assert_eq!(req.ids, "xT4uQulxzV39haRFjG,3og0IPxMM0erATueVW");
}

#[test]
fn new_descriptors_have_every_option_absent() {
    let search = SearchRequest::new("tacos");
    assert_eq!(search.query, "tacos");
    assert_eq!(search.limit, None);
    assert_eq!(search.offset, None);

    let trending = TrendingRequest::new();
    assert_eq!(trending.rating, None);
    assert_eq!(trending.limit, None);
    assert_eq!(trending.offset, None);

    let translate = TranslateRequest::new("hello");
    assert_eq!(translate.phrase, "hello");
    assert_eq!(translate.weirdness, None);

    let random = RandomRequest::new();
    assert_eq!(random.tag, None);
    assert_eq!(random.rating, None);
}

#[test]
fn modifier_sets_only_its_own_field() {
    let req = SearchRequest::new("hello").with_offset(5);
    assert_eq!(req.query, "hello");
    assert_eq!(req.limit, None);
    assert_eq!(req.offset, Some(5));

    let req = TrendingRequest::new().with_limit(13);
    assert_eq!(req.rating, None);
    assert_eq!(req.limit, Some(13));
    assert_eq!(req.offset, None);

    let req = RandomRequest::new().with_rating("pg");
    assert_eq!(req.tag, None);
    assert_eq!(req.rating, Some("pg"));
}

#[test]
fn modifier_twice_keeps_last_value() {
    let req = SearchRequest::new("hello").with_limit(1).with_limit(100);
    assert_eq!(req.limit, Some(100));
    assert_eq!(req.offset, None);

    let req = TrendingRequest::new().with_rating("g").with_rating("pg-13");
    assert_eq!(req.rating, Some("pg-13"));

    let req = TranslateRequest::new("rage").with_weirdness(3).with_weirdness(10);
    assert_eq!(req.weirdness, Some(10));

    let req = RandomRequest::new().with_tag("cat").with_tag("dog");
    assert_eq!(req.tag, Some("dog"));
}

#[test]
fn endpoint_does_not_depend_on_parameters() {
    assert_eq!(SearchRequest::new("a").get_endpoint(), SearchRequest::new("b").with_limit(3).get_endpoint());
    assert_eq!(TrendingRequest::new().with_offset(9).get_endpoint(), "v1/gifs/trending");
    assert_eq!(TranslateRequest::new("x").get_endpoint(), TranslateRequest::new("y").get_endpoint());
    assert_eq!(RandomRequest::new().with_tag("t").get_endpoint(), "v1/gifs/random");
    assert_eq!(GetGifsRequest::new(vec!["a"]).get_endpoint(), GetGifsRequest::new(vec!["b", "c"]).get_endpoint());
    assert_eq!(GetGifRequest::new("abc").get_endpoint(), "v1/gifs/abc");
}

#[test]
fn search_query_params_in_field_order() {
    let req = SearchRequest::new("hello").with_limit(100).with_offset(5);
    assert_eq!(
        req.query_params(),
        expected(&[("q", "hello"), ("limit", "100"), ("offset", "5")])
    );
}

#[test]
fn absent_options_are_not_sent() {
    assert_eq!(SearchRequest::new("hello").query_params(), expected(&[("q", "hello")]));
    assert!(TrendingRequest::new().query_params().is_empty());
    assert!(RandomRequest::new().query_params().is_empty());
    assert_eq!(
        TrendingRequest::new().with_offset(7).query_params(),
        expected(&[("offset", "7")])
    );
}

#[test]
fn renamed_and_other_query_params() {
    assert_eq!(
        TranslateRequest::new("rage").with_weirdness(10).query_params(),
        expected(&[("s", "rage"), ("weirdness", "10")])
    );
    assert_eq!(
        RandomRequest::new().with_tag("burrito").with_rating("g").query_params(),
        expected(&[("tag", "burrito"), ("rating", "g")])
    );
    assert_eq!(
        TrendingRequest::new().with_rating("g").with_limit(25).query_params(),
        expected(&[("rating", "g"), ("limit", "25")])
    );
    assert!(GetGifRequest::new("xT4uQulxzV39haRFjG").query_params().is_empty());
    assert_eq!(
        GetGifsRequest::new(vec!["a", "b"]).query_params(),
        expected(&[("ids", "a,b")])
    );
}

#[test]
fn decimal_rendering() {
    assert_eq!(decimal_string(0), "0");
    assert_eq!(decimal_string(7), "7");
    assert_eq!(decimal_string(10), "10");
    assert_eq!(decimal_string(305), "305");
    assert_eq!(decimal_string(4294967295), "4294967295");
    assert_eq!(decimal_string(u64::MAX), "18446744073709551615");
}

#[test]
fn join_keeps_order_and_duplicates() {
    assert_eq!(join_with_commas(&vec![]), "");
    assert_eq!(join_with_commas(&vec!["one"]), "one");
    assert_eq!(join_with_commas(&vec!["b", "a", "b"]), "b,a,b");
    let joined = GetGifsRequest::new(vec!["xT4uQulxzV39haRFjG", "3og0IPxMM0erATueVW", "xT4uQulxzV39haRFjG"]).ids;
    assert_eq!(joined, "xT4uQulxzV39haRFjG,3og0IPxMM0erATueVW,xT4uQulxzV39haRFjG");
    let pieces: Vec<&str> = joined.split(',').collect();
    assert_eq!(pieces, vec!["xT4uQulxzV39haRFjG", "3og0IPxMM0erATueVW", "xT4uQulxzV39haRFjG"]);
}
