//! Thumbnail decisions: which media get a thumbnail and the cache file name
//! each one is stored under.

use vstd::prelude::*;
use vstd::string::*;
use crate::models::{FileType, MediaFile};
use crate::checksum::{checksum_of, spec_hex_lower, spec_sha256};
use crate::file_scanner::{
    ThumbnailFailure, ThumbnailFailureView, spec_fitted_thumbnail, thumbnail_encode, prefixed,
};

verus! {

/// Thumbnail generator configuration
#[derive(Debug, Clone)]
pub struct ThumbnailConfig {
    pub size: u32,
    pub quality: u8,
    /// Directory the thumbnails are cached in.
    pub cache_dir: String,
}

impl Default for ThumbnailConfig {
    fn default() -> (r: Self)
        ensures
            r.size == 512,
            r.quality == 85,
            r.cache_dir@ == "thumbnails"@,
    {
        ThumbnailConfig { size: 512, quality: 85, cache_dir: "thumbnails".to_owned() }
    }
}

/// The cache file name of a media path's thumbnail: the SHA-256 of the
/// path's UTF-8 bytes in lowercase hexadecimal, then `.jpg`.
pub open spec fn spec_thumbnail_file_name(media_path: Seq<char>) -> Seq<char> {
    spec_hex_lower(spec_sha256(vstd::utf8::encode_utf8(media_path))) + ".jpg"@
}

/// The cache file name of a media path's thumbnail.
pub fn thumbnail_file_name(media_path: &str) -> (r: String)
    ensures
        r@ == spec_thumbnail_file_name(media_path@),
        r@.len() == 68,
{
    proof {
        reveal_strlit(".jpg");
    }
    let mut r = checksum_of(media_path.as_bytes());
    r.append(".jpg");
    r
}

/// Thumbnail generator service
pub struct ThumbnailGenerator {
    config: ThumbnailConfig,
}

impl ThumbnailGenerator {
    /// The configuration the generator runs with.
    pub closed spec fn spec_config(&self) -> ThumbnailConfig {
        self.config
    }

    /// Create new thumbnail generator
    pub fn new(config: ThumbnailConfig) -> (r: Self)
        ensures
            r.spec_config() == config,
    {
        ThumbnailGenerator { config }
    }

    /// The configuration the generator runs with.
    pub fn config(&self) -> (r: &ThumbnailConfig)
        ensures
            *r == self.spec_config(),
    {
        &self.config
    }

    /// The cache file name of a media file's thumbnail: only images get one.
    pub fn thumbnail_target(&self, media: &MediaFile) -> (r: Option<String>)
        ensures
            media.file_type == FileType::Image <==> r is Some,
            r matches Some(n) ==> n@ == spec_thumbnail_file_name(media.file_path@),
    {
        match media.file_type {
            FileType::Video => None,
            FileType::Image => Some(thumbnail_file_name(media.file_path.as_str())),
        }
    }
}

impl ThumbnailGenerator {
    /// The JPEG thumbnail of a media file, from its bytes and its file's
    /// extension (without dot): videos get none; an image is shrunk to fit in
    /// the configured size, keeping its proportions. An image that does not
    /// decode gets none; one whose thumbnail does not encode gives the
    /// failure in words.
    pub fn thumbnail_image(&self, media: &MediaFile, image: &[u8], ext: &str) -> (r: Result<Option<Vec<u8>>, String>)
        ensures
            media.file_type == FileType::Video ==> r == Ok::<Option<Vec<u8>>, String>(None),
            media.file_type == FileType::Image ==> (match spec_fitted_thumbnail(image@, ext@, self.spec_config().size, "jpg"@) {
                Ok(b) => r matches Ok(Some(v)) && v@ == b,
                Err(ThumbnailFailureView::Decode(_)) => r == Ok::<Option<Vec<u8>>, String>(None),
                Err(ThumbnailFailureView::Encode(m)) => r matches Err(t) && t@ == "Failed to save thumbnail: "@ + m,
            }),
    {
        match media.file_type {
            FileType::Video => Ok(None),
            FileType::Image => {
                proof {
                    reveal_strlit("jpg");
                }
                match thumbnail_encode(image, ext, self.config.size, "jpg") {
                    Ok(b) => Ok(Some(b)),
                    Err(ThumbnailFailure::Decode(_)) => Ok(None),
                    Err(ThumbnailFailure::Encode(m)) => Err(prefixed("Failed to save thumbnail: ", m.as_str())),
                }
            },
        }
    }
}

} // verus!
