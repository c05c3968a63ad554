//! The entities of the remote schema, and how each is read from a JSON document.
use vstd::prelude::*;

use super::json::{
    field_of, get_field, int32_at, int32_field, is_absent, is_object, opt_text_at,
    opt_text_field, text_at, text_field, value_at, value_field, DecodeError, JsonValue,
};

verus! {

/// Default API URL for the Giphy API.
pub const API_ROOT: &'static str = "https://api.giphy.com";

/// The views of a list of query parameters.
pub open spec fn params_view(params: Seq<(String, String)>) -> Seq<(Seq<char>, Seq<char>)> {
    params.map_values(|p: (String, String)| (p.0@, p.1@))
}

/// A parameter that is present: the one pair `(key, value)`.
pub open spec fn param(key: Seq<char>, value: Seq<char>) -> Seq<(Seq<char>, Seq<char>)> {
    seq![(key, value)]
}

/// Marks the request descriptors: each names the endpoint it is sent to, the
/// query parameters it carries, and (as `ResponseType`) what its response decodes to.
pub trait GiphyRequest<ResponseType: Decode> {
    /// The endpoint path, relative to the API root.
    spec fn endpoint_path(&self) -> Seq<char>;

    /// The descriptor's own query parameters, in order; absent options are left out.
    spec fn query_spec(&self) -> Seq<(Seq<char>, Seq<char>)>;

    /// The endpoint path, relative to the API root.
    fn get_endpoint(&self) -> (r: &str)
        ensures
            r@ == self.endpoint_path(),
    ;

    /// The descriptor's own query parameters, as key and value pairs.
    fn query_params(&self) -> (r: Vec<(String, String)>)
        ensures
            params_view(r@) == self.query_spec(),
    ;
}

/// A type that can be read from a JSON document.
pub trait Decode: Sized {
    /// Whether `r` is the outcome of reading `v`.
    spec fn decodes_to(v: JsonValue, r: Result<Self, DecodeError>) -> bool;

    /// Reads a value of this type from `v`.
    fn decode(v: &JsonValue) -> (r: Result<Self, DecodeError>)
        ensures
            Self::decodes_to(*v, r),
    ;
}

/// Giphy `Meta` object: present on every response.
#[derive(Debug)]
pub struct Meta {
    pub msg: String,
    pub status: i32,
    pub response_id: String,
}

impl Meta {
    /// What reading `v` as a `Meta` gives.
    pub open spec fn from_json(v: JsonValue) -> Result<Meta, DecodeError> {
        let msg = text_at(v, "msg");
        let status = int32_at(v, "status");
        let response_id = text_at(v, "response_id");
        if !is_object(v) {
            Err(DecodeError::NotAnObject)
        } else if msg is Err {
            Err(msg->Err_0)
        } else if status is Err {
            Err(status->Err_0)
        } else if response_id is Err {
            Err(response_id->Err_0)
        } else {
            Ok(Meta { msg: msg->Ok_0, status: status->Ok_0, response_id: response_id->Ok_0 })
        }
    }
}

impl Decode for Meta {
    open spec fn decodes_to(v: JsonValue, r: Result<Meta, DecodeError>) -> bool {
        r == Meta::from_json(v)
    }

    fn decode(v: &JsonValue) -> (r: Result<Meta, DecodeError>) {
        if !matches!(v, JsonValue::Object(_)) {
            return Err(DecodeError::NotAnObject);
        }
        let msg = text_field(v, "msg")?;
        let status = int32_field(v, "status")?;
        let response_id = text_field(v, "response_id")?;
        Ok(Meta { msg, status, response_id })
    }
}

/// Giphy `Pagination` object: present on list responses.
#[derive(Debug)]
pub struct Pagination {
    pub count: i32,
    pub total_count: i32,
    pub offset: i32,
}

impl Pagination {
    /// What reading `v` as a `Pagination` gives: the first field that cannot be read
    /// decides the error.
    pub open spec fn from_json(v: JsonValue) -> Result<Pagination, DecodeError> {
        let count = int32_at(v, "count");
        let total_count = int32_at(v, "total_count");
        let offset = int32_at(v, "offset");
        if !is_object(v) {
            Err(DecodeError::NotAnObject)
        } else if count is Err {
            Err(count->Err_0)
        } else if total_count is Err {
            Err(total_count->Err_0)
        } else if offset is Err {
            Err(offset->Err_0)
        } else {
            Ok(Pagination {
                count: count->Ok_0,
                total_count: total_count->Ok_0,
                offset: offset->Ok_0,
            })
        }
    }
}

impl Decode for Pagination {
    open spec fn decodes_to(v: JsonValue, r: Result<Pagination, DecodeError>) -> bool {
        r == Pagination::from_json(v)
    }

    fn decode(v: &JsonValue) -> (r: Result<Pagination, DecodeError>) {
        if !matches!(v, JsonValue::Object(_)) {
            return Err(DecodeError::NotAnObject);
        }
        let count = int32_field(v, "count")?;
        let total_count = int32_field(v, "total_count")?;
        let offset = int32_field(v, "offset")?;
        Ok(Pagination {
            count,
            total_count,
            offset,
        })
    }
}

/// Giphy `User` object: the uploader a GIF is attributed to.
#[derive(Debug)]
pub struct User {
    pub avatar_url: String,
    pub banner_url: String,
    pub profile_url: String,
    pub username: String,
    pub display_name: String,
    pub twitter: Option<String>,
}

impl User {
    /// What reading `v` as a `User` gives: the first field that cannot be read
    /// decides the error.
    pub open spec fn from_json(v: JsonValue) -> Result<User, DecodeError> {
        let avatar_url = text_at(v, "avatar_url");
        let banner_url = text_at(v, "banner_url");
        let profile_url = text_at(v, "profile_url");
        let username = text_at(v, "username");
        let display_name = text_at(v, "display_name");
        let twitter = opt_text_at(v, "twitter");
        if !is_object(v) {
            Err(DecodeError::NotAnObject)
        } else if avatar_url is Err {
            Err(avatar_url->Err_0)
        } else if banner_url is Err {
            Err(banner_url->Err_0)
        } else if profile_url is Err {
            Err(profile_url->Err_0)
        } else if username is Err {
            Err(username->Err_0)
        } else if display_name is Err {
            Err(display_name->Err_0)
        } else if twitter is Err {
            Err(twitter->Err_0)
        } else {
            Ok(User {
                avatar_url: avatar_url->Ok_0,
                banner_url: banner_url->Ok_0,
                profile_url: profile_url->Ok_0,
                username: username->Ok_0,
                display_name: display_name->Ok_0,
                twitter: twitter->Ok_0,
            })
        }
    }
}

impl Decode for User {
    open spec fn decodes_to(v: JsonValue, r: Result<User, DecodeError>) -> bool {
        r == User::from_json(v)
    }

    fn decode(v: &JsonValue) -> (r: Result<User, DecodeError>) {
        if !matches!(v, JsonValue::Object(_)) {
            return Err(DecodeError::NotAnObject);
        }
        let avatar_url = text_field(v, "avatar_url")?;
        let banner_url = text_field(v, "banner_url")?;
        let profile_url = text_field(v, "profile_url")?;
        let username = text_field(v, "username")?;
        let display_name = text_field(v, "display_name")?;
        let twitter = opt_text_field(v, "twitter")?;
        Ok(User {
            avatar_url,
            banner_url,
            profile_url,
            username,
            display_name,
            twitter,
        })
    }
}

/// One animated rendition of a GIF.
#[derive(Debug)]
pub struct ImageAnimated {
    pub url: Option<String>,
    pub width: String,
    pub height: String,
    pub size: Option<String>,
    pub mp4: Option<String>,
    pub mp4_size: Option<String>,
    pub webp: Option<String>,
    pub webp_size: Option<String>,
}

impl ImageAnimated {
    /// What reading `v` as a `ImageAnimated` gives: the first field that cannot be read
    /// decides the error.
    pub open spec fn from_json(v: JsonValue) -> Result<ImageAnimated, DecodeError> {
        let url = opt_text_at(v, "url");
        let width = text_at(v, "width");
        let height = text_at(v, "height");
        let size = opt_text_at(v, "size");
        let mp4 = opt_text_at(v, "mp4");
        let mp4_size = opt_text_at(v, "mp4_size");
        let webp = opt_text_at(v, "webp");
        let webp_size = opt_text_at(v, "webp_size");
        if !is_object(v) {
            Err(DecodeError::NotAnObject)
        } else if url is Err {
            Err(url->Err_0)
        } else if width is Err {
            Err(width->Err_0)
        } else if height is Err {
            Err(height->Err_0)
        } else if size is Err {
            Err(size->Err_0)
        } else if mp4 is Err {
            Err(mp4->Err_0)
        } else if mp4_size is Err {
            Err(mp4_size->Err_0)
        } else if webp is Err {
            Err(webp->Err_0)
        } else if webp_size is Err {
            Err(webp_size->Err_0)
        } else {
            Ok(ImageAnimated {
                url: url->Ok_0,
                width: width->Ok_0,
                height: height->Ok_0,
                size: size->Ok_0,
                mp4: mp4->Ok_0,
                mp4_size: mp4_size->Ok_0,
                webp: webp->Ok_0,
                webp_size: webp_size->Ok_0,
            })
        }
    }
}

impl Decode for ImageAnimated {
    open spec fn decodes_to(v: JsonValue, r: Result<ImageAnimated, DecodeError>) -> bool {
        r == ImageAnimated::from_json(v)
    }

    fn decode(v: &JsonValue) -> (r: Result<ImageAnimated, DecodeError>) {
        if !matches!(v, JsonValue::Object(_)) {
            return Err(DecodeError::NotAnObject);
        }
        let url = opt_text_field(v, "url")?;
        let width = text_field(v, "width")?;
        let height = text_field(v, "height")?;
        let size = opt_text_field(v, "size")?;
        let mp4 = opt_text_field(v, "mp4")?;
        let mp4_size = opt_text_field(v, "mp4_size")?;
        let webp = opt_text_field(v, "webp")?;
        let webp_size = opt_text_field(v, "webp_size")?;
        Ok(ImageAnimated {
            url,
            width,
            height,
            size,
            mp4,
            mp4_size,
            webp,
            webp_size,
        })
    }
}

/// One still rendition of a GIF.
#[derive(Debug)]
pub struct ImageStill {
    pub url: String,
    pub width: String,
    pub height: String,
}

impl ImageStill {
    /// What reading `v` as a `ImageStill` gives: the first field that cannot be read
    /// decides the error.
    pub open spec fn from_json(v: JsonValue) -> Result<ImageStill, DecodeError> {
        let url = text_at(v, "url");
        let width = text_at(v, "width");
        let height = text_at(v, "height");
        if !is_object(v) {
            Err(DecodeError::NotAnObject)
        } else if url is Err {
            Err(url->Err_0)
        } else if width is Err {
            Err(width->Err_0)
        } else if height is Err {
            Err(height->Err_0)
        } else {
            Ok(ImageStill {
                url: url->Ok_0,
                width: width->Ok_0,
                height: height->Ok_0,
            })
        }
    }
}

impl Decode for ImageStill {
    open spec fn decodes_to(v: JsonValue, r: Result<ImageStill, DecodeError>) -> bool {
        r == ImageStill::from_json(v)
    }

    fn decode(v: &JsonValue) -> (r: Result<ImageStill, DecodeError>) {
        if !matches!(v, JsonValue::Object(_)) {
            return Err(DecodeError::NotAnObject);
        }
        let url = text_field(v, "url")?;
        let width = text_field(v, "width")?;
        let height = text_field(v, "height")?;
        Ok(ImageStill {
            url,
            width,
            height,
        })
    }
}

/// The looping MP4 rendition of a GIF.
#[derive(Debug)]
pub struct ImageLooping {
    pub mp4: String,
}

impl ImageLooping {
    /// What reading `v` as a `ImageLooping` gives: the first field that cannot be read
    /// decides the error.
    pub open spec fn from_json(v: JsonValue) -> Result<ImageLooping, DecodeError> {
        let mp4 = text_at(v, "mp4");
        if !is_object(v) {
            Err(DecodeError::NotAnObject)
        } else if mp4 is Err {
            Err(mp4->Err_0)
        } else {
            Ok(ImageLooping {
                mp4: mp4->Ok_0,
            })
        }
    }
}

impl Decode for ImageLooping {
    open spec fn decodes_to(v: JsonValue, r: Result<ImageLooping, DecodeError>) -> bool {
        r == ImageLooping::from_json(v)
    }

    fn decode(v: &JsonValue) -> (r: Result<ImageLooping, DecodeError>) {
        if !matches!(v, JsonValue::Object(_)) {
            return Err(DecodeError::NotAnObject);
        }
        let mp4 = text_field(v, "mp4")?;
        Ok(ImageLooping {
            mp4,
        })
    }
}

/// The MP4 preview rendition of a GIF.
#[derive(Debug)]
pub struct ImagePreviewMp4 {
    pub mp4: String,
    pub mp4_size: String,
    pub width: String,
    pub height: String,
}

impl ImagePreviewMp4 {
    /// What reading `v` as a `ImagePreviewMp4` gives: the first field that cannot be read
    /// decides the error.
    pub open spec fn from_json(v: JsonValue) -> Result<ImagePreviewMp4, DecodeError> {
        let mp4 = text_at(v, "mp4");
        let mp4_size = text_at(v, "mp4_size");
        let width = text_at(v, "width");
        let height = text_at(v, "height");
        if !is_object(v) {
            Err(DecodeError::NotAnObject)
        } else if mp4 is Err {
            Err(mp4->Err_0)
        } else if mp4_size is Err {
            Err(mp4_size->Err_0)
        } else if width is Err {
            Err(width->Err_0)
        } else if height is Err {
            Err(height->Err_0)
        } else {
            Ok(ImagePreviewMp4 {
                mp4: mp4->Ok_0,
                mp4_size: mp4_size->Ok_0,
                width: width->Ok_0,
                height: height->Ok_0,
            })
        }
    }
}

impl Decode for ImagePreviewMp4 {
    open spec fn decodes_to(v: JsonValue, r: Result<ImagePreviewMp4, DecodeError>) -> bool {
        r == ImagePreviewMp4::from_json(v)
    }

    fn decode(v: &JsonValue) -> (r: Result<ImagePreviewMp4, DecodeError>) {
        if !matches!(v, JsonValue::Object(_)) {
            return Err(DecodeError::NotAnObject);
        }
        let mp4 = text_field(v, "mp4")?;
        let mp4_size = text_field(v, "mp4_size")?;
        let width = text_field(v, "width")?;
        let height = text_field(v, "height")?;
        Ok(ImagePreviewMp4 {
            mp4,
            mp4_size,
            width,
            height,
        })
    }
}

/// The GIF preview rendition of a GIF.
#[derive(Debug)]
pub struct ImagePreviewGif {
    pub url: String,
    pub size: String,
    pub width: String,
    pub height: String,
}

impl ImagePreviewGif {
    /// What reading `v` as a `ImagePreviewGif` gives: the first field that cannot be read
    /// decides the error.
    pub open spec fn from_json(v: JsonValue) -> Result<ImagePreviewGif, DecodeError> {
        let url = text_at(v, "url");
        let size = text_at(v, "size");
        let width = text_at(v, "width");
        let height = text_at(v, "height");
        if !is_object(v) {
            Err(DecodeError::NotAnObject)
        } else if url is Err {
            Err(url->Err_0)
        } else if size is Err {
            Err(size->Err_0)
        } else if width is Err {
            Err(width->Err_0)
        } else if height is Err {
            Err(height->Err_0)
        } else {
            Ok(ImagePreviewGif {
                url: url->Ok_0,
                size: size->Ok_0,
                width: width->Ok_0,
                height: height->Ok_0,
            })
        }
    }
}

impl Decode for ImagePreviewGif {
    open spec fn decodes_to(v: JsonValue, r: Result<ImagePreviewGif, DecodeError>) -> bool {
        r == ImagePreviewGif::from_json(v)
    }

    fn decode(v: &JsonValue) -> (r: Result<ImagePreviewGif, DecodeError>) {
        if !matches!(v, JsonValue::Object(_)) {
            return Err(DecodeError::NotAnObject);
        }
        let url = text_field(v, "url")?;
        let size = text_field(v, "size")?;
        let width = text_field(v, "width")?;
        let height = text_field(v, "height")?;
        Ok(ImagePreviewGif {
            url,
            size,
            width,
            height,
        })
    }
}

/// Giphy `Images` object: the renditions of one GIF, one field each.
#[derive(Debug)]
pub struct Images {
    pub fixed_height: ImageAnimated,
    pub fixed_height_still: ImageStill,
    pub fixed_height_downsampled: ImageAnimated,
    pub fixed_width: ImageAnimated,
    pub fixed_width_still: ImageStill,
    pub fixed_width_downsampled: ImageAnimated,
    pub fixed_height_small: ImageAnimated,
    pub fixed_height_small_still: ImageStill,
    pub fixed_width_small: ImageAnimated,
    pub fixed_width_small_still: ImageStill,
    pub downsized: ImageAnimated,
    pub downsized_still: ImageStill,
    pub downsized_large: ImageAnimated,
    pub downsized_medium: ImageAnimated,
    pub downsized_small: ImageAnimated,
    pub original: ImageAnimated,
    pub original_still: ImageStill,
    pub looping: ImageLooping,
    pub preview: ImagePreviewMp4,
    pub preview_gif: ImagePreviewGif,
}

impl Images {
    /// What reading `v` as a `Images` gives: the first field that cannot be read
    /// decides the error.
    pub open spec fn from_json(v: JsonValue) -> Result<Images, DecodeError> {
        let fixed_height = match value_at(v, "fixed_height") {
            Ok(x) => ImageAnimated::from_json(x),
            Err(e) => Err(e),
        };
        let fixed_height_still = match value_at(v, "fixed_height_still") {
            Ok(x) => ImageStill::from_json(x),
            Err(e) => Err(e),
        };
        let fixed_height_downsampled = match value_at(v, "fixed_height_downsampled") {
            Ok(x) => ImageAnimated::from_json(x),
            Err(e) => Err(e),
        };
        let fixed_width = match value_at(v, "fixed_width") {
            Ok(x) => ImageAnimated::from_json(x),
            Err(e) => Err(e),
        };
        let fixed_width_still = match value_at(v, "fixed_width_still") {
            Ok(x) => ImageStill::from_json(x),
            Err(e) => Err(e),
        };
        let fixed_width_downsampled = match value_at(v, "fixed_width_downsampled") {
            Ok(x) => ImageAnimated::from_json(x),
            Err(e) => Err(e),
        };
        let fixed_height_small = match value_at(v, "fixed_height_small") {
            Ok(x) => ImageAnimated::from_json(x),
            Err(e) => Err(e),
        };
        let fixed_height_small_still = match value_at(v, "fixed_height_small_still") {
            Ok(x) => ImageStill::from_json(x),
            Err(e) => Err(e),
        };
        let fixed_width_small = match value_at(v, "fixed_width_small") {
            Ok(x) => ImageAnimated::from_json(x),
            Err(e) => Err(e),
        };
        let fixed_width_small_still = match value_at(v, "fixed_width_small_still") {
            Ok(x) => ImageStill::from_json(x),
            Err(e) => Err(e),
        };
        let downsized = match value_at(v, "downsized") {
            Ok(x) => ImageAnimated::from_json(x),
            Err(e) => Err(e),
        };
        let downsized_still = match value_at(v, "downsized_still") {
            Ok(x) => ImageStill::from_json(x),
            Err(e) => Err(e),
        };
        let downsized_large = match value_at(v, "downsized_large") {
            Ok(x) => ImageAnimated::from_json(x),
            Err(e) => Err(e),
        };
        let downsized_medium = match value_at(v, "downsized_medium") {
            Ok(x) => ImageAnimated::from_json(x),
            Err(e) => Err(e),
        };
        let downsized_small = match value_at(v, "downsized_small") {
            Ok(x) => ImageAnimated::from_json(x),
            Err(e) => Err(e),
        };
        let original = match value_at(v, "original") {
            Ok(x) => ImageAnimated::from_json(x),
            Err(e) => Err(e),
        };
        let original_still = match value_at(v, "original_still") {
            Ok(x) => ImageStill::from_json(x),
            Err(e) => Err(e),
        };
        let looping = match value_at(v, "looping") {
            Ok(x) => ImageLooping::from_json(x),
            Err(e) => Err(e),
        };
        let preview = match value_at(v, "preview") {
            Ok(x) => ImagePreviewMp4::from_json(x),
            Err(e) => Err(e),
        };
        let preview_gif = match value_at(v, "preview_gif") {
            Ok(x) => ImagePreviewGif::from_json(x),
            Err(e) => Err(e),
        };
        if !is_object(v) {
            Err(DecodeError::NotAnObject)
        } else if fixed_height is Err {
            Err(fixed_height->Err_0)
        } else if fixed_height_still is Err {
            Err(fixed_height_still->Err_0)
        } else if fixed_height_downsampled is Err {
            Err(fixed_height_downsampled->Err_0)
        } else if fixed_width is Err {
            Err(fixed_width->Err_0)
        } else if fixed_width_still is Err {
            Err(fixed_width_still->Err_0)
        } else if fixed_width_downsampled is Err {
            Err(fixed_width_downsampled->Err_0)
        } else if fixed_height_small is Err {
            Err(fixed_height_small->Err_0)
        } else if fixed_height_small_still is Err {
            Err(fixed_height_small_still->Err_0)
        } else if fixed_width_small is Err {
            Err(fixed_width_small->Err_0)
        } else if fixed_width_small_still is Err {
            Err(fixed_width_small_still->Err_0)
        } else if downsized is Err {
            Err(downsized->Err_0)
        } else if downsized_still is Err {
            Err(downsized_still->Err_0)
        } else if downsized_large is Err {
            Err(downsized_large->Err_0)
        } else if downsized_medium is Err {
            Err(downsized_medium->Err_0)
        } else if downsized_small is Err {
            Err(downsized_small->Err_0)
        } else if original is Err {
            Err(original->Err_0)
        } else if original_still is Err {
            Err(original_still->Err_0)
        } else if looping is Err {
            Err(looping->Err_0)
        } else if preview is Err {
            Err(preview->Err_0)
        } else if preview_gif is Err {
            Err(preview_gif->Err_0)
        } else {
            Ok(Images {
                fixed_height: fixed_height->Ok_0,
                fixed_height_still: fixed_height_still->Ok_0,
                fixed_height_downsampled: fixed_height_downsampled->Ok_0,
                fixed_width: fixed_width->Ok_0,
                fixed_width_still: fixed_width_still->Ok_0,
                fixed_width_downsampled: fixed_width_downsampled->Ok_0,
                fixed_height_small: fixed_height_small->Ok_0,
                fixed_height_small_still: fixed_height_small_still->Ok_0,
                fixed_width_small: fixed_width_small->Ok_0,
                fixed_width_small_still: fixed_width_small_still->Ok_0,
                downsized: downsized->Ok_0,
                downsized_still: downsized_still->Ok_0,
                downsized_large: downsized_large->Ok_0,
                downsized_medium: downsized_medium->Ok_0,
                downsized_small: downsized_small->Ok_0,
                original: original->Ok_0,
                original_still: original_still->Ok_0,
                looping: looping->Ok_0,
                preview: preview->Ok_0,
                preview_gif: preview_gif->Ok_0,
            })
        }
    }
}

impl Decode for Images {
    open spec fn decodes_to(v: JsonValue, r: Result<Images, DecodeError>) -> bool {
        r == Images::from_json(v)
    }

    fn decode(v: &JsonValue) -> (r: Result<Images, DecodeError>) {
        if !matches!(v, JsonValue::Object(_)) {
            return Err(DecodeError::NotAnObject);
        }
        let fixed_height = ImageAnimated::decode(value_field(v, "fixed_height")?)?;
        let fixed_height_still = ImageStill::decode(value_field(v, "fixed_height_still")?)?;
        let fixed_height_downsampled = ImageAnimated::decode(value_field(v, "fixed_height_downsampled")?)?;
        let fixed_width = ImageAnimated::decode(value_field(v, "fixed_width")?)?;
        let fixed_width_still = ImageStill::decode(value_field(v, "fixed_width_still")?)?;
        let fixed_width_downsampled = ImageAnimated::decode(value_field(v, "fixed_width_downsampled")?)?;
        let fixed_height_small = ImageAnimated::decode(value_field(v, "fixed_height_small")?)?;
        let fixed_height_small_still = ImageStill::decode(value_field(v, "fixed_height_small_still")?)?;
        let fixed_width_small = ImageAnimated::decode(value_field(v, "fixed_width_small")?)?;
        let fixed_width_small_still = ImageStill::decode(value_field(v, "fixed_width_small_still")?)?;
        let downsized = ImageAnimated::decode(value_field(v, "downsized")?)?;
        let downsized_still = ImageStill::decode(value_field(v, "downsized_still")?)?;
        let downsized_large = ImageAnimated::decode(value_field(v, "downsized_large")?)?;
        let downsized_medium = ImageAnimated::decode(value_field(v, "downsized_medium")?)?;
        let downsized_small = ImageAnimated::decode(value_field(v, "downsized_small")?)?;
        let original = ImageAnimated::decode(value_field(v, "original")?)?;
        let original_still = ImageStill::decode(value_field(v, "original_still")?)?;
        let looping = ImageLooping::decode(value_field(v, "looping")?)?;
        let preview = ImagePreviewMp4::decode(value_field(v, "preview")?)?;
        let preview_gif = ImagePreviewGif::decode(value_field(v, "preview_gif")?)?;
        Ok(Images {
            fixed_height,
            fixed_height_still,
            fixed_height_downsampled,
            fixed_width,
            fixed_width_still,
            fixed_width_downsampled,
            fixed_height_small,
            fixed_height_small_still,
            fixed_width_small,
            fixed_width_small_still,
            downsized,
            downsized_still,
            downsized_large,
            downsized_medium,
            downsized_small,
            original,
            original_still,
            looping,
            preview,
            preview_gif,
        })
    }
}

/// Giphy `Gif` object: one media item.
#[derive(Debug)]
pub struct Gif {
    pub gif_type: String,
    pub id: String,
    pub slug: String,
    pub url: String,
    pub bitly_url: String,
    pub embed_url: String,
    pub username: String,
    pub source: String,
    pub rating: Option<String>,
    pub user: Option<User>,
    pub source_tld: String,
    pub source_post_url: String,
    pub update_datetime: Option<String>,
    pub create_datetime: Option<String>,
    pub import_datetime: Option<String>,
    pub trending_datetime: Option<String>,
    pub images: Images,
    pub title: String,
}

impl Gif {
    /// What reading `v` as a `Gif` gives: the first field that cannot be read
    /// decides the error.
    pub open spec fn from_json(v: JsonValue) -> Result<Gif, DecodeError> {
        let gif_type = if field_of(v, "type"@) is Some {
            text_at(v, "type")
        } else {
            text_at(v, "gif_type")
        };
        let id = text_at(v, "id");
        let slug = text_at(v, "slug");
        let url = text_at(v, "url");
        let bitly_url = text_at(v, "bitly_url");
        let embed_url = text_at(v, "embed_url");
        let username = text_at(v, "username");
        let source = text_at(v, "source");
        let rating = opt_text_at(v, "rating");
        let user = if is_absent(field_of(v, "user"@)) {
            Ok(None)
        } else {
            match User::from_json(field_of(v, "user"@)->Some_0) {
                Ok(x) => Ok(Some(x)),
                Err(e) => Err(e),
            }
        };
        let source_tld = text_at(v, "source_tld");
        let source_post_url = text_at(v, "source_post_url");
        let update_datetime = opt_text_at(v, "update_datetime");
        let create_datetime = opt_text_at(v, "create_datetime");
        let import_datetime = opt_text_at(v, "import_datetime");
        let trending_datetime = opt_text_at(v, "trending_datetime");
        let images = match value_at(v, "images") {
            Ok(x) => Images::from_json(x),
            Err(e) => Err(e),
        };
        let title = text_at(v, "title");
        if !is_object(v) {
            Err(DecodeError::NotAnObject)
        } else if gif_type is Err {
            Err(gif_type->Err_0)
        } else if id is Err {
            Err(id->Err_0)
        } else if slug is Err {
            Err(slug->Err_0)
        } else if url is Err {
            Err(url->Err_0)
        } else if bitly_url is Err {
            Err(bitly_url->Err_0)
        } else if embed_url is Err {
            Err(embed_url->Err_0)
        } else if username is Err {
            Err(username->Err_0)
        } else if source is Err {
            Err(source->Err_0)
        } else if rating is Err {
            Err(rating->Err_0)
        } else if user is Err {
            Err(user->Err_0)
        } else if source_tld is Err {
            Err(source_tld->Err_0)
        } else if source_post_url is Err {
            Err(source_post_url->Err_0)
        } else if update_datetime is Err {
            Err(update_datetime->Err_0)
        } else if create_datetime is Err {
            Err(create_datetime->Err_0)
        } else if import_datetime is Err {
            Err(import_datetime->Err_0)
        } else if trending_datetime is Err {
            Err(trending_datetime->Err_0)
        } else if images is Err {
            Err(images->Err_0)
        } else if title is Err {
            Err(title->Err_0)
        } else {
            Ok(Gif {
                gif_type: gif_type->Ok_0,
                id: id->Ok_0,
                slug: slug->Ok_0,
                url: url->Ok_0,
                bitly_url: bitly_url->Ok_0,
                embed_url: embed_url->Ok_0,
                username: username->Ok_0,
                source: source->Ok_0,
                rating: rating->Ok_0,
                user: user->Ok_0,
                source_tld: source_tld->Ok_0,
                source_post_url: source_post_url->Ok_0,
                update_datetime: update_datetime->Ok_0,
                create_datetime: create_datetime->Ok_0,
                import_datetime: import_datetime->Ok_0,
                trending_datetime: trending_datetime->Ok_0,
                images: images->Ok_0,
                title: title->Ok_0,
            })
        }
    }
}

impl Decode for Gif {
    open spec fn decodes_to(v: JsonValue, r: Result<Gif, DecodeError>) -> bool {
        r == Gif::from_json(v)
    }

    fn decode(v: &JsonValue) -> (r: Result<Gif, DecodeError>) {
        if !matches!(v, JsonValue::Object(_)) {
            return Err(DecodeError::NotAnObject);
        }
        let gif_type = match get_field(v, "type") {
            Some(_) => text_field(v, "type")?,
            None => text_field(v, "gif_type")?,
        };
        let id = text_field(v, "id")?;
        let slug = text_field(v, "slug")?;
        let url = text_field(v, "url")?;
        let bitly_url = text_field(v, "bitly_url")?;
        let embed_url = text_field(v, "embed_url")?;
        let username = text_field(v, "username")?;
        let source = text_field(v, "source")?;
        let rating = opt_text_field(v, "rating")?;
        let user = match get_field(v, "user") {
            None => None,
            Some(JsonValue::Null) => None,
            Some(x) => Some(User::decode(x)?),
        };
        let source_tld = text_field(v, "source_tld")?;
        let source_post_url = text_field(v, "source_post_url")?;
        let update_datetime = opt_text_field(v, "update_datetime")?;
        let create_datetime = opt_text_field(v, "create_datetime")?;
        let import_datetime = opt_text_field(v, "import_datetime")?;
        let trending_datetime = opt_text_field(v, "trending_datetime")?;
        let images = Images::decode(value_field(v, "images")?)?;
        let title = text_field(v, "title")?;
        Ok(Gif {
            gif_type,
            id,
            slug,
            url,
            bitly_url,
            embed_url,
            username,
            source,
            rating,
            user,
            source_tld,
            source_post_url,
            update_datetime,
            create_datetime,
            import_datetime,
            trending_datetime,
            images,
            title,
        })
    }
}

/// What reading each element of `items` as a `Gif` gives: the first element
/// that cannot be read decides the error.
pub open spec fn gifs_from_json(items: Seq<JsonValue>) -> Result<Seq<Gif>, DecodeError>
    decreases items.len(),
{
    if items.len() == 0 {
        Ok(Seq::empty())
    } else {
        match gifs_from_json(items.drop_last()) {
            Err(e) => Err(e),
            Ok(prefix) => match Gif::from_json(items.last()) {
                Ok(g) => Ok(prefix.push(g)),
                Err(e) => Err(e),
            },
        }
    }
}

/// Once a prefix of `items` fails to read, every longer prefix fails the same way.
proof fn lemma_gifs_error_persists(items: Seq<JsonValue>, k: int, j: int)
    requires
        0 <= k <= j <= items.len(),
        gifs_from_json(items.take(k)) is Err,
    ensures
        gifs_from_json(items.take(j)) == gifs_from_json(items.take(k)),
    decreases j - k,
{
    if j > k {
        lemma_gifs_error_persists(items, k, j - 1);
        assert(items.take(j).drop_last() =~= items.take(j - 1));
    }
}

/// Reads every element of `items` as a `Gif`, stopping at the first that cannot be read.
fn decode_gifs(items: &Vec<JsonValue>) -> (r: Result<Vec<Gif>, DecodeError>)
    ensures
        match gifs_from_json(items@) {
            Ok(gifs) => r is Ok && r->Ok_0@ == gifs,
            Err(e) => r == Err::<Vec<Gif>, DecodeError>(e),
        },
{
    let mut out: Vec<Gif> = Vec::new();
    let mut i: usize = 0;
    assert(items@.take(0) =~= Seq::<JsonValue>::empty());
    while i < items.len()
        invariant
            0 <= i <= items@.len(),
            gifs_from_json(items@.take(i as int)) == Ok::<Seq<Gif>, DecodeError>(out@),
        decreases items@.len() - i,
    {
        assert(items@.take(i + 1).drop_last() =~= items@.take(i as int));
        match Gif::decode(&items[i]) {
            Ok(g) => {
                out.push(g);
            },
            Err(e) => {
                proof {
                    lemma_gifs_error_persists(items@, i + 1, items@.len() as int);
                    assert(items@.take(items@.len() as int) =~= items@);
                }
                return Err(e);
            },
        }
        i = i + 1;
    }
    assert(items@.take(items@.len() as int) =~= items@);
    Ok(out)
}

/// What reading field `data` of `v` as a list of GIFs gives.
pub open spec fn gif_list_at(v: JsonValue) -> Result<Seq<Gif>, DecodeError> {
    match value_at(v, "data") {
        Ok(JsonValue::Array(items)) => gifs_from_json(items@),
        Ok(_) => Err(DecodeError::InvalidType("data")),
        Err(e) => Err(e),
    }
}

/// Response envelope of the endpoints that return a list of GIFs
/// (search, trending, GIFs by id).
#[derive(Debug)]
pub struct PaginatedGifListResponse {
    pub data: Vec<Gif>,
    pub pagination: Pagination,
    pub meta: Meta,
}

impl Decode for PaginatedGifListResponse {
    /// The fields are read in order; the first that cannot be read decides the error.
    open spec fn decodes_to(v: JsonValue, r: Result<PaginatedGifListResponse, DecodeError>) -> bool {
        let data = gif_list_at(v);
        let pagination = match value_at(v, "pagination") {
            Ok(x) => Pagination::from_json(x),
            Err(e) => Err(e),
        };
        let meta = match value_at(v, "meta") {
            Ok(x) => Meta::from_json(x),
            Err(e) => Err(e),
        };
        if !is_object(v) {
            r == Err::<PaginatedGifListResponse, DecodeError>(DecodeError::NotAnObject)
        } else if data is Err {
            r == Err::<PaginatedGifListResponse, DecodeError>(data->Err_0)
        } else if pagination is Err {
            r == Err::<PaginatedGifListResponse, DecodeError>(pagination->Err_0)
        } else if meta is Err {
            r == Err::<PaginatedGifListResponse, DecodeError>(meta->Err_0)
        } else {
            &&& r is Ok
            &&& r->Ok_0.data@ == data->Ok_0
            &&& r->Ok_0.pagination == pagination->Ok_0
            &&& r->Ok_0.meta == meta->Ok_0
        }
    }

    fn decode(v: &JsonValue) -> (r: Result<PaginatedGifListResponse, DecodeError>) {
        if !matches!(v, JsonValue::Object(_)) {
            return Err(DecodeError::NotAnObject);
        }
        let data = match value_field(v, "data")? {
            JsonValue::Array(items) => decode_gifs(items)?,
            _ => return Err(DecodeError::InvalidType("data")),
        };
        let pagination = Pagination::decode(value_field(v, "pagination")?)?;
        let meta = Meta::decode(value_field(v, "meta")?)?;
        Ok(PaginatedGifListResponse { data, pagination, meta })
    }
}

/// Response envelope of the endpoints that return one GIF
/// (translate, random, GIF by id).
#[derive(Debug)]
pub struct SingleGifResponse {
    pub data: Gif,
    pub meta: Meta,
}

impl SingleGifResponse {
    /// What reading `v` as a `SingleGifResponse` gives: the first field that
    /// cannot be read decides the error.
    pub open spec fn from_json(v: JsonValue) -> Result<SingleGifResponse, DecodeError> {
        let data = match value_at(v, "data") {
            Ok(x) => Gif::from_json(x),
            Err(e) => Err(e),
        };
        let meta = match value_at(v, "meta") {
            Ok(x) => Meta::from_json(x),
            Err(e) => Err(e),
        };
        if !is_object(v) {
            Err(DecodeError::NotAnObject)
        } else if data is Err {
            Err(data->Err_0)
        } else if meta is Err {
            Err(meta->Err_0)
        } else {
            Ok(SingleGifResponse { data: data->Ok_0, meta: meta->Ok_0 })
        }
    }
}

impl Decode for SingleGifResponse {
    open spec fn decodes_to(v: JsonValue, r: Result<SingleGifResponse, DecodeError>) -> bool {
        r == SingleGifResponse::from_json(v)
    }

    fn decode(v: &JsonValue) -> (r: Result<SingleGifResponse, DecodeError>) {
        if !matches!(v, JsonValue::Object(_)) {
            return Err(DecodeError::NotAnObject);
        }
        let data = Gif::decode(value_field(v, "data")?)?;
        let meta = Meta::decode(value_field(v, "meta")?)?;
        Ok(SingleGifResponse { data, meta })
    }
}

/// Response of the search endpoint.
pub type SearchResponse = PaginatedGifListResponse;

/// Response of the trending endpoint.
pub type TrendingResponse = PaginatedGifListResponse;

/// Response of the translate endpoint.
pub type TranslateResponse = SingleGifResponse;

/// Response of the random endpoint.
pub type RandomResponse = SingleGifResponse;

} // verus!
