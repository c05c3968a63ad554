use giphy::v1::{
    DecodeError, Decode, Gif, JsonValue, Meta, Pagination, SearchResponse, SingleGifResponse, User,
};

fn text(s: &str) -> JsonValue {
    JsonValue::Str(s.to_string())
}

fn obj(entries: Vec<(&str, JsonValue)>) -> JsonValue {
    JsonValue::Object(entries.into_iter().map(|(k, v)| (k.to_string(), v)).collect())
}

fn meta() -> JsonValue {
    obj(vec![("msg", text("OK")), ("status", JsonValue::Int(200)), ("response_id", text("5b4fdb"))])
}

fn pagination(count: i64, total: i64, offset: i64) -> JsonValue {
    obj(vec![
        ("total_count", JsonValue::Int(total)),
        ("count", JsonValue::Int(count)),
        ("offset", JsonValue::Int(offset)),
    ])
}

fn animated(tag: &str) -> JsonValue {
    obj(vec![
        ("url", text(&format!("https://media.giphy.com/{}.gif", tag))),
        ("width", text("200")),
        ("height", text("150")),
        ("size", text("48213")),
        ("mp4", text(&format!("https://media.giphy.com/{}.mp4", tag))),
        ("mp4_size", text("9824")),
        ("webp", text(&format!("https://media.giphy.com/{}.webp", tag))),
        ("webp_size", text("30210")),
    ])
}

fn still(tag: &str) -> JsonValue {
    obj(vec![
        ("url", text(&format!("https://media.giphy.com/{}_s.gif", tag))),
        ("width", text("200")),
        ("height", text("150")),
    ])
}

fn images() -> JsonValue {
    obj(vec![
        ("fixed_height", animated("fixed_height")),
        ("fixed_height_still", still("fixed_height")),
        ("fixed_height_downsampled", animated("fixed_height_downsampled")),
        ("fixed_width", animated("fixed_width")),
        ("fixed_width_still", still("fixed_width")),
        ("fixed_width_downsampled", animated("fixed_width_downsampled")),
        ("fixed_height_small", animated("fixed_height_small")),
        ("fixed_height_small_still", still("fixed_height_small")),
        ("fixed_width_small", animated("fixed_width_small")),
        ("fixed_width_small_still", still("fixed_width_small")),
        ("downsized", animated("downsized")),
        ("downsized_still", still("downsized")),
        ("downsized_large", animated("downsized_large")),
        ("downsized_medium", animated("downsized_medium")),
        ("downsized_small", obj(vec![("width", text("100")), ("height", text("75"))])),
        ("original", animated("original")),
        ("original_still", still("original")),
        ("looping", obj(vec![("mp4", text("https://media.giphy.com/looping.mp4"))])),
        (
            "preview",
            obj(vec![
                ("mp4", text("https://media.giphy.com/preview.mp4")),
                ("mp4_size", text("41000")),
                ("width", text("100")),
                ("height", text("75")),
            ]),
        ),
        (
            "preview_gif",
            obj(vec![
                ("url", text("https://media.giphy.com/preview.gif")),
                ("size", text("49000")),
                ("width", text("100")),
                ("height", text("75")),
            ]),
        ),
    ])
}

fn user() -> JsonValue {
    obj(vec![
        ("avatar_url", text("https://media.giphy.com/avatars/a.gif")),
        ("banner_url", text("")),
        ("profile_url", text("https://giphy.com/someone/")),
        ("username", text("someone")),
        ("display_name", text("Some One")),
    ])
}

fn gif(id: &str) -> JsonValue {
    obj(vec![
        ("type", text("gif")),
        ("id", text(id)),
        ("slug", text(&format!("rage-{}", id))),
        ("url", text(&format!("https://giphy.com/gifs/{}", id))),
        ("bitly_url", text(&format!("https://gph.is/{}", id))),
        ("embed_url", text(&format!("https://giphy.com/embed/{}", id))),
        ("username", text("someone")),
        ("source", text("")),
        ("rating", text("g")),
        ("user", user()),
        ("source_tld", text("")),
        ("source_post_url", text("")),
        ("update_datetime", JsonValue::Null),
        ("create_datetime", text("2017-03-15 18:55:30")),
        ("import_datetime", text("2017-03-15 18:55:30")),
        ("trending_datetime", text("0000-00-00 00:00:00")),
        ("images", images()),
        ("title", text("angry rage GIF")),
    ])
}

fn search_body() -> JsonValue {
    obj(vec![
        ("data", JsonValue::Array(vec![gif("xT4uQulxzV39haRFjG"), gif("3og0IPxMM0erATueVW"), gif("l0MYt5jPR6QX5pnqM")])),
        ("pagination", pagination(3, 1534, 0)),
        ("meta", meta()),
    ])
}

fn without(v: JsonValue, key: &str) -> JsonValue {
    match v {
        JsonValue::Object(entries) => JsonValue::Object(entries.into_iter().filter(|(k, _)| k != key).collect()),
        other => other,
    }
}

fn with(v: JsonValue, key: &str, value: JsonValue) -> JsonValue {
    match without(v, key) {
        JsonValue::Object(mut entries) => {
            entries.push((key.to_string(), value));
            JsonValue::Object(entries)
        }
        other => other,
    }
}

#[test]
fn meta_fields_equal_the_document() {
    let m = Meta::decode(&meta()).unwrap();
    assert_eq!(m.msg, "OK");
    assert_eq!(m.status, 200);
    assert_eq!(m.response_id, "5b4fdb");
}

#[test]
fn pagination_fields_in_any_order() {
    let p = Pagination::decode(&pagination(25, 4000, 50)).unwrap();
    assert_eq!(p.count, 25);
    assert_eq!(p.total_count, 4000);
    assert_eq!(p.offset, 50);
}

#[test]
fn missing_required_field_is_named() {
    let err = Meta::decode(&without(meta(), "response_id")).unwrap_err();
    assert_eq!(err, DecodeError::MissingField("response_id"));
    let err = Gif::decode(&without(gif("a"), "title")).unwrap_err();
    assert_eq!(err, DecodeError::MissingField("title"));
}

#[test]
fn first_unreadable_field_decides_the_error() {
    let broken = with(without(meta(), "msg"), "status", text("200"));
    assert_eq!(Meta::decode(&broken).unwrap_err(), DecodeError::MissingField("msg"));
}

#[test]
fn wrong_type_is_named() {
    let err = Meta::decode(&with(meta(), "status", text("200"))).unwrap_err();
    assert_eq!(err, DecodeError::InvalidType("status"));
    let err = Meta::decode(&with(meta(), "msg", JsonValue::Null)).unwrap_err();
    assert_eq!(err, DecodeError::InvalidType("msg"));
}

#[test]
fn integer_out_of_range_is_rejected() {
    let err = Pagination::decode(&pagination(1 << 40, 0, 0)).unwrap_err();
    assert_eq!(err, DecodeError::InvalidType("count"));
    let err = Pagination::decode(&with(pagination(1, 1, 0), "offset", JsonValue::OtherNumber("1.5".to_string()))).unwrap_err();
    assert_eq!(err, DecodeError::InvalidType("offset"));
}

#[test]
fn non_object_is_rejected() {
    assert_eq!(Meta::decode(&JsonValue::Array(vec![])).unwrap_err(), DecodeError::NotAnObject);
    assert_eq!(SearchResponse::decode(&text("nope")).unwrap_err(), DecodeError::NotAnObject);
    let body = with(search_body(), "meta", JsonValue::Bool(true));
    assert_eq!(SearchResponse::decode(&body).unwrap_err(), DecodeError::NotAnObject);
}

#[test]
fn optional_fields_absent_or_null() {
    let u = User::decode(&user()).unwrap();
    assert_eq!(u.twitter, None);
    let u = User::decode(&with(user(), "twitter", JsonValue::Null)).unwrap();
    assert_eq!(u.twitter, None);
    let u = User::decode(&with(user(), "twitter", text("@someone"))).unwrap();
    assert_eq!(u.twitter, Some("@someone".to_string()));

    let g = Gif::decode(&gif("a")).unwrap();
    assert_eq!(g.update_datetime, None);
    assert_eq!(g.create_datetime, Some("2017-03-15 18:55:30".to_string()));
    assert!(g.user.is_some());
    let g = Gif::decode(&without(without(gif("a"), "user"), "rating")).unwrap();
    assert!(g.user.is_none());
    assert_eq!(g.rating, None);
    let g = Gif::decode(&with(gif("a"), "user", JsonValue::Null)).unwrap();
    assert!(g.user.is_none());
}

#[test]
fn gif_type_read_from_type_or_gif_type() {
    let g = Gif::decode(&gif("a")).unwrap();
    assert_eq!(g.gif_type, "gif");
    let g = Gif::decode(&with(without(gif("a"), "type"), "gif_type", text("sticker"))).unwrap();
    assert_eq!(g.gif_type, "sticker");
    let err = Gif::decode(&without(gif("a"), "type")).unwrap_err();
    assert_eq!(err, DecodeError::MissingField("gif_type"));
}

#[test]
fn nested_rendition_fields() {
    let g = Gif::decode(&gif("xT4uQulxzV39haRFjG")).unwrap();
    assert_eq!(g.id, "xT4uQulxzV39haRFjG");
    assert_eq!(g.images.original.mp4, Some("https://media.giphy.com/original.mp4".to_string()));
    assert_eq!(g.images.fixed_width_still.url, "https://media.giphy.com/fixed_width_s.gif");
    assert_eq!(g.images.downsized_small.url, None);
    assert_eq!(g.images.downsized_small.width, "100");
    assert_eq!(g.images.looping.mp4, "https://media.giphy.com/looping.mp4");
    assert_eq!(g.images.preview.mp4_size, "41000");
    assert_eq!(g.images.preview_gif.size, "49000");
    let err = Gif::decode(&with(gif("a"), "images", without(images(), "looping"))).unwrap_err();
    assert_eq!(err, DecodeError::MissingField("looping"));
}

#[test]
fn search_response_round_trip() {
    let r = SearchResponse::decode(&search_body()).unwrap();
    assert_eq!(r.pagination.count, 3);
    assert_eq!(r.pagination.total_count, 1534);
    assert_eq!(r.data.len(), 3);
    assert_eq!(r.data[0].id, "xT4uQulxzV39haRFjG");
    assert_eq!(r.data[1].id, "3og0IPxMM0erATueVW");
    assert_eq!(r.data[2].id, "l0MYt5jPR6QX5pnqM");
    assert_eq!(r.meta.status, 200);
}

#[test]
fn list_response_errors() {
    let body = with(search_body(), "data", gif("a"));
    assert_eq!(SearchResponse::decode(&body).unwrap_err(), DecodeError::InvalidType("data"));
    let body = with(search_body(), "data", JsonValue::Array(vec![gif("a"), without(gif("b"), "slug"), gif("c")]));
    assert_eq!(SearchResponse::decode(&body).unwrap_err(), DecodeError::MissingField("slug"));
    let body = without(search_body(), "pagination");
    assert_eq!(SearchResponse::decode(&body).unwrap_err(), DecodeError::MissingField("pagination"));
    let body = with(search_body(), "data", JsonValue::Array(vec![]));
    assert_eq!(SearchResponse::decode(&body).unwrap().data.len(), 0);
}

#[test]
fn single_gif_response_round_trip() {
    let body = obj(vec![("data", gif("xT4uQulxzV39haRFjG")), ("meta", meta())]);
    let r = SingleGifResponse::decode(&body).unwrap();
    assert_eq!(r.data.id, "xT4uQulxzV39haRFjG");
    assert_eq!(r.data.title, "angry rage GIF");
    assert_eq!(r.meta.status, 200);
    let err = SingleGifResponse::decode(&obj(vec![("meta", meta())])).unwrap_err();
    assert_eq!(err, DecodeError::MissingField("data"));
}
