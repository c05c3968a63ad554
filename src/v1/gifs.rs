//! Request descriptors of the GIF endpoints.
use vstd::prelude::*;

use super::model::{param, params_view, GiphyRequest, PaginatedGifListResponse, SingleGifResponse};
use super::text::{decimal, decimal_string, join_with_commas, joined, views_of};

verus! {

/// A text parameter that may be absent.
pub open spec fn opt_text_param(key: Seq<char>, value: Option<&str>) -> Seq<(Seq<char>, Seq<char>)> {
    match value {
        Some(s) => param(key, s@),
        None => Seq::empty(),
    }
}

/// A number parameter that may be absent, rendered in decimal.
pub open spec fn opt_number_param(key: Seq<char>, value: Option<nat>) -> Seq<(Seq<char>, Seq<char>)> {
    match value {
        Some(n) => param(key, decimal(n)),
        None => Seq::empty(),
    }
}

/// `value` widened to a natural number.
pub open spec fn nat_of_u32(value: Option<u32>) -> Option<nat> {
    match value {
        Some(n) => Some(n as nat),
        None => None,
    }
}

/// `value` widened to a natural number.
pub open spec fn nat_of_u8(value: Option<u8>) -> Option<nat> {
    match value {
        Some(n) => Some(n as nat),
        None => None,
    }
}

/// Appends the parameter `(key, value)`.
fn push_text(params: &mut Vec<(String, String)>, key: &str, value: &str)
    ensures
        params_view(final(params)@) == params_view(old(params)@) + param(key@, value@),
{
    params.push((String::from_str(key), String::from_str(value)));
    assert(params_view(final(params)@) =~= params_view(old(params)@) + param(key@, value@));
}

/// Appends the parameter `(key, value)` when `value` is present.
fn push_opt_text(params: &mut Vec<(String, String)>, key: &str, value: Option<&str>)
    ensures
        params_view(final(params)@) == params_view(old(params)@) + opt_text_param(key@, value),
{
    match value {
        Some(s) => push_text(params, key, s),
        None => {
            assert(params_view(old(params)@) + opt_text_param(key@, value) =~= params_view(old(params)@));
        },
    }
}

/// Appends the parameter `(key, decimal text of value)` when `value` is present.
fn push_opt_number(params: &mut Vec<(String, String)>, key: &str, value: Option<u32>)
    ensures
        params_view(final(params)@) == params_view(old(params)@) + opt_number_param(key@, nat_of_u32(value)),
{
    match value {
        Some(n) => {
            params.push((String::from_str(key), decimal_string(n as u64)));
            assert(params_view(final(params)@) =~= params_view(old(params)@) + opt_number_param(
                key@,
                nat_of_u32(value),
            ));
        },
        None => {
            assert(params_view(old(params)@) + opt_number_param(key@, nat_of_u32(value))
                =~= params_view(old(params)@));
        },
    }
}

/// Giphy search endpoint request.
pub struct SearchRequest<'p> {
    /// The search text, sent as `q`.
    pub query: &'p str,
    pub limit: Option<u32>,
    pub offset: Option<u32>,
}

impl<'p> SearchRequest<'p> {
    /// Creates a new search request for `query`.
    pub fn new(query: &'p str) -> (r: SearchRequest<'p>)
        ensures
            r == (SearchRequest { query, limit: None, offset: None }),
    {
        SearchRequest { query, limit: None, offset: None }
    }

    /// Limits the maximum number of GIF objects returned.
    pub fn with_limit(self, value: u32) -> (r: Self)
        ensures
            r == (SearchRequest { limit: Some(value), ..self }),
    {
        SearchRequest { limit: Some(value), ..self }
    }

    /// Sets the number of GIF objects to skip.
    pub fn with_offset(self, value: u32) -> (r: Self)
        ensures
            r == (SearchRequest { offset: Some(value), ..self }),
    {
        SearchRequest { offset: Some(value), ..self }
    }
}

impl<'p> GiphyRequest<PaginatedGifListResponse> for SearchRequest<'p> {
    open spec fn endpoint_path(&self) -> Seq<char> {
        "v1/gifs/search"@
    }

    open spec fn query_spec(&self) -> Seq<(Seq<char>, Seq<char>)> {
        param("q"@, self.query@) + opt_number_param("limit"@, nat_of_u32(self.limit))
            + opt_number_param("offset"@, nat_of_u32(self.offset))
    }

    fn get_endpoint(&self) -> (r: &str) {
        "v1/gifs/search"
    }

    fn query_params(&self) -> (r: Vec<(String, String)>) {
        let mut params = Vec::new();
        push_text(&mut params, "q", self.query);
        push_opt_number(&mut params, "limit", self.limit);
        push_opt_number(&mut params, "offset", self.offset);
        params
    }
}

/// Giphy trending endpoint request.
pub struct TrendingRequest<'a> {
    pub rating: Option<&'a str>,
    pub limit: Option<u32>,
    pub offset: Option<u32>,
}

impl<'a> TrendingRequest<'a> {
    /// Creates a new trending request, with every option absent.
    pub fn new() -> (r: TrendingRequest<'a>)
        ensures
            r == (TrendingRequest { rating: None, limit: None, offset: None }),
    {
        TrendingRequest { rating: None, limit: None, offset: None }
    }

    /// Sets the rating of the GIF objects returned.
    pub fn with_rating<'b: 'a>(self, rating: &'b str) -> (r: Self)
        ensures
            r == (TrendingRequest { rating: Some(rating), ..self }),
    {
        TrendingRequest { rating: Some(rating), ..self }
    }

    /// Limits the maximum number of GIF objects returned.
    pub fn with_limit(self, limit: u32) -> (r: Self)
        ensures
            r == (TrendingRequest { limit: Some(limit), ..self }),
    {
        TrendingRequest { limit: Some(limit), ..self }
    }

    /// Sets the number of GIF objects to skip.
    pub fn with_offset(self, offset: u32) -> (r: Self)
        ensures
            r == (TrendingRequest { offset: Some(offset), ..self }),
    {
        TrendingRequest { offset: Some(offset), ..self }
    }
}

impl<'a> GiphyRequest<PaginatedGifListResponse> for TrendingRequest<'a> {
    open spec fn endpoint_path(&self) -> Seq<char> {
        "v1/gifs/trending"@
    }

    open spec fn query_spec(&self) -> Seq<(Seq<char>, Seq<char>)> {
        opt_text_param("rating"@, self.rating) + opt_number_param("limit"@, nat_of_u32(self.limit))
            + opt_number_param("offset"@, nat_of_u32(self.offset))
    }

    fn get_endpoint(&self) -> (r: &str) {
        "v1/gifs/trending"
    }

    fn query_params(&self) -> (r: Vec<(String, String)>) {
        let mut params = Vec::new();
        assert(params_view(params@) =~= Seq::empty());
        push_opt_text(&mut params, "rating", self.rating);
        push_opt_number(&mut params, "limit", self.limit);
        push_opt_number(&mut params, "offset", self.offset);
        params
    }
}

/// Giphy translate endpoint request.
pub struct TranslateRequest<'a> {
    /// The phrase to translate into a GIF, sent as `s`.
    pub phrase: &'a str,
    pub weirdness: Option<u8>,
}

impl<'a> TranslateRequest<'a> {
    /// Creates a new translate request for `phrase`.
    pub fn new(phrase: &'a str) -> (r: TranslateRequest<'a>)
        ensures
            r == (TranslateRequest { phrase, weirdness: None }),
    {
        TranslateRequest { phrase, weirdness: None }
    }

    /// Sets the weirdness of the translation.
    pub fn with_weirdness(self, value: u8) -> (r: Self)
        ensures
            r == (TranslateRequest { weirdness: Some(value), ..self }),
    {
        TranslateRequest { weirdness: Some(value), ..self }
    }
}

impl<'a> GiphyRequest<SingleGifResponse> for TranslateRequest<'a> {
    open spec fn endpoint_path(&self) -> Seq<char> {
        "v1/gifs/translate"@
    }

    open spec fn query_spec(&self) -> Seq<(Seq<char>, Seq<char>)> {
        param("s"@, self.phrase@) + opt_number_param("weirdness"@, nat_of_u8(self.weirdness))
    }

    fn get_endpoint(&self) -> (r: &str) {
        "v1/gifs/translate"
    }

    fn query_params(&self) -> (r: Vec<(String, String)>) {
        let mut params = Vec::new();
        push_text(&mut params, "s", self.phrase);
        let weirdness: Option<u32> = match self.weirdness {
            Some(w) => Some(w as u32),
            None => None,
        };
        push_opt_number(&mut params, "weirdness", weirdness);
        params
    }
}

/// Giphy random endpoint request.
pub struct RandomRequest<'a, 'b> {
    pub tag: Option<&'a str>,
    pub rating: Option<&'b str>,
}

impl<'a, 'b> RandomRequest<'a, 'b> {
    /// Creates a new random request, with every option absent.
    pub fn new() -> (r: RandomRequest<'a, 'b>)
        ensures
            r == (RandomRequest { tag: None, rating: None }),
    {
        RandomRequest { tag: None, rating: None }
    }

    /// Restricts the random GIF to the given tag.
    pub fn with_tag(self, value: &'a str) -> (r: Self)
        ensures
            r == (RandomRequest { tag: Some(value), ..self }),
    {
        RandomRequest { tag: Some(value), ..self }
    }

    /// Restricts the random GIF to the given rating.
    pub fn with_rating(self, value: &'b str) -> (r: Self)
        ensures
            r == (RandomRequest { rating: Some(value), ..self }),
    {
        RandomRequest { rating: Some(value), ..self }
    }
}

impl<'a, 'b> GiphyRequest<SingleGifResponse> for RandomRequest<'a, 'b> {
    open spec fn endpoint_path(&self) -> Seq<char> {
        "v1/gifs/random"@
    }

    open spec fn query_spec(&self) -> Seq<(Seq<char>, Seq<char>)> {
        opt_text_param("tag"@, self.tag) + opt_text_param("rating"@, self.rating)
    }

    fn get_endpoint(&self) -> (r: &str) {
        "v1/gifs/random"
    }

    fn query_params(&self) -> (r: Vec<(String, String)>) {
        let mut params = Vec::new();
        assert(params_view(params@) =~= Seq::empty());
        push_opt_text(&mut params, "tag", self.tag);
        push_opt_text(&mut params, "rating", self.rating);
        params
    }
}

/// Giphy GIF-by-id endpoint request: the id is part of the endpoint path.
pub struct GetGifRequest {
    /// The endpoint path, `v1/gifs/` followed by the id.
    pub endpoint: String,
}

impl GetGifRequest {
    /// Creates a new request for the GIF with id `gif_id`.
    pub fn new(gif_id: &str) -> (r: GetGifRequest)
        ensures
            r.endpoint@ == "v1/gifs/"@ + gif_id@,
    {
        let endpoint = String::from_str("v1/gifs/").concat(gif_id);
        GetGifRequest { endpoint }
    }
}

impl GiphyRequest<SingleGifResponse> for GetGifRequest {
    open spec fn endpoint_path(&self) -> Seq<char> {
        self.endpoint@
    }

    /// The id travels in the path: no query parameter of its own.
    open spec fn query_spec(&self) -> Seq<(Seq<char>, Seq<char>)> {
        Seq::empty()
    }

    fn get_endpoint(&self) -> (r: &str) {
        self.endpoint.as_str()
    }

    fn query_params(&self) -> (r: Vec<(String, String)>) {
        let params = Vec::new();
        assert(params_view(params@) =~= Seq::empty());
        params
    }
}

/// Giphy GIFs-by-id endpoint request.
pub struct GetGifsRequest {
    /// The ids, joined with `,`.
    pub ids: String,
}

impl GetGifsRequest {
    /// Creates a new request for the GIFs with the given ids. The ids are joined
    /// with `,` in the order given; an id that itself holds a comma cannot be
    /// told apart from two.
    pub fn new(ids: Vec<&str>) -> (r: GetGifsRequest)
        ensures
            r.ids@ == joined(views_of(ids@)),
    {
        GetGifsRequest { ids: join_with_commas(&ids) }
    }
}

impl GiphyRequest<PaginatedGifListResponse> for GetGifsRequest {
    open spec fn endpoint_path(&self) -> Seq<char> {
        "v1/gifs"@
    }

    open spec fn query_spec(&self) -> Seq<(Seq<char>, Seq<char>)> {
        param("ids"@, self.ids@)
    }

    fn get_endpoint(&self) -> (r: &str) {
        "v1/gifs"
    }

    fn query_params(&self) -> (r: Vec<(String, String)>) {
        let mut params = Vec::new();
        push_text(&mut params, "ids", self.ids.as_str());
        params
    }
}

/// A modifier applied twice keeps only the second value.
pub proof fn lemma_modifiers_last_write_wins(
    search: SearchRequest,
    trending: TrendingRequest,
    translate: TranslateRequest,
    random: RandomRequest,
    a: u32,
    b: u32,
    w1: u8,
    w2: u8,
    s1: &str,
    s2: &str,
)
    ensures
        (SearchRequest { limit: Some(b), ..SearchRequest { limit: Some(a), ..search } })
            == (SearchRequest { limit: Some(b), ..search }),
        (SearchRequest { offset: Some(b), ..SearchRequest { offset: Some(a), ..search } })
            == (SearchRequest { offset: Some(b), ..search }),
        (TrendingRequest { rating: Some(s2), ..TrendingRequest { rating: Some(s1), ..trending } })
            == (TrendingRequest { rating: Some(s2), ..trending }),
        (TrendingRequest { limit: Some(b), ..TrendingRequest { limit: Some(a), ..trending } })
            == (TrendingRequest { limit: Some(b), ..trending }),
        (TrendingRequest { offset: Some(b), ..TrendingRequest { offset: Some(a), ..trending } })
            == (TrendingRequest { offset: Some(b), ..trending }),
        (TranslateRequest { weirdness: Some(w2), ..TranslateRequest { weirdness: Some(w1), ..translate } })
            == (TranslateRequest { weirdness: Some(w2), ..translate }),
        (RandomRequest { tag: Some(s2), ..RandomRequest { tag: Some(s1), ..random } })
            == (RandomRequest { tag: Some(s2), ..random }),
        (RandomRequest { rating: Some(s2), ..RandomRequest { rating: Some(s1), ..random } })
            == (RandomRequest { rating: Some(s2), ..random }),
{
}

/// The endpoint path of every descriptor but the GIF-by-id one is fixed:
/// two descriptors of one type name the same path whatever their parameters.
pub proof fn lemma_endpoint_independent_of_parameters(
    search: (SearchRequest, SearchRequest),
    trending: (TrendingRequest, TrendingRequest),
    translate: (TranslateRequest, TranslateRequest),
    random: (RandomRequest, RandomRequest),
    many: (GetGifsRequest, GetGifsRequest),
)
    ensures
        search.0.endpoint_path() == search.1.endpoint_path(),
        trending.0.endpoint_path() == trending.1.endpoint_path(),
        translate.0.endpoint_path() == translate.1.endpoint_path(),
        random.0.endpoint_path() == random.1.endpoint_path(),
        many.0.endpoint_path() == many.1.endpoint_path(),
{
}

} // verus!
