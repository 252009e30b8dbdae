//! The rules for photos: what may be uploaded, under which name it is
//! stored, where it is then found, and how many a user may have.
use vstd::prelude::*;
use vstd::string::StringExecFns;
use crate::config::Config;
use crate::errors::AppError;
use crate::errors::ErrorView;
use crate::fresh::fresh_id;
use crate::fresh::is_random_uuid_text;
use crate::lex::str_eq;
use crate::text::concat2;
use crate::text::concat3;
use crate::text::contains_text;
use crate::text::has_substring;
use crate::text::owned;

verus! {

/// The greatest size of an upload: five mebibytes.
pub const MAX_UPLOAD_BYTES: usize = 5_242_880;

/// How many photos a user may have.
pub const MAX_PHOTOS: i64 = 6;

/// The kinds of image that may be uploaded.
#[derive(Debug, Clone, Copy, PartialEq, Eq, Structural)]
pub enum ImageType {
    Jpeg,
    Png,
    Webp,
    Gif,
}

/// The kind of image that a content type names, if it names one.
pub open spec fn image_type_spec(content_type: Seq<char>) -> Option<ImageType> {
    if content_type == "image/jpeg"@ {
        Some(ImageType::Jpeg)
    } else if content_type == "image/png"@ {
        Some(ImageType::Png)
    } else if content_type == "image/webp"@ {
        Some(ImageType::Webp)
    } else if content_type == "image/gif"@ {
        Some(ImageType::Gif)
    } else {
        None
    }
}

/// The ending of the file name of an image.
pub open spec fn extension_spec(image_type: ImageType) -> Seq<char> {
    match image_type {
        ImageType::Jpeg => "jpg"@,
        ImageType::Png => "png"@,
        ImageType::Webp => "webp"@,
        ImageType::Gif => "gif"@,
    }
}

/// The kind of image that a content type names, if it names one.
pub fn image_type(content_type: &str) -> (r: Option<ImageType>)
    ensures
        r == image_type_spec(content_type@),
{
    if str_eq(content_type, "image/jpeg") {
        Some(ImageType::Jpeg)
    } else if str_eq(content_type, "image/png") {
        Some(ImageType::Png)
    } else if str_eq(content_type, "image/webp") {
        Some(ImageType::Webp)
    } else if str_eq(content_type, "image/gif") {
        Some(ImageType::Gif)
    } else {
        None
    }
}

/// The ending of the file name of an image.
pub fn extension(image_type: ImageType) -> (r: &'static str)
    ensures
        r@ == extension_spec(image_type),
{
    match image_type {
        ImageType::Jpeg => "jpg",
        ImageType::Png => "png",
        ImageType::Webp => "webp",
        ImageType::Gif => "gif",
    }
}

/// Checks an upload: it may have five mebibytes at most and must be an image
/// of a kind that is accepted. The size is checked first.
pub fn validate_upload(size: usize, content_type: &str) -> (r: Result<ImageType, AppError>)
    ensures
        r is Ok <==> (size <= MAX_UPLOAD_BYTES && image_type_spec(content_type@) is Some),
        r matches Ok(t) ==> image_type_spec(content_type@) == Some(t),
        r matches Err(e) ==> e@ == if size > MAX_UPLOAD_BYTES {
            ErrorView::Validation("File size exceeds 5MB limit"@)
        } else {
            ErrorView::Validation(
                "Invalid file type. Only JPEG, PNG, WebP, and GIF are allowed"@,
            )
        },
{
    if size > MAX_UPLOAD_BYTES {
        return Err(AppError::Validation(owned("File size exceeds 5MB limit")));
    }
    match image_type(content_type) {
        Some(t) => Ok(t),
        None => Err(
            AppError::Validation(
                owned("Invalid file type. Only JPEG, PNG, WebP, and GIF are allowed"),
            ),
        ),
    }
}

/// The name of a stored photo: `<id>.<extension>`.
pub open spec fn file_name_spec(photo_id: Seq<char>, image_type: ImageType) -> Seq<char> {
    photo_id + "."@ + extension_spec(image_type)
}

/// The key under which a photo is stored: `photos/<id>.<extension>`.
pub open spec fn object_key_spec(photo_id: Seq<char>, image_type: ImageType) -> Seq<char> {
    "photos/"@ + file_name_spec(photo_id, image_type)
}

/// The address of a stored photo. A store on this machine is addressed by
/// its own address, the bucket and the key; any other as a bucket of the
/// storage service in its region.
pub open spec fn stored_url_spec(
    endpoint: Seq<char>,
    bucket: Seq<char>,
    region: Seq<char>,
    key: Seq<char>,
) -> Seq<char> {
    if has_substring(endpoint, "localhost"@) || has_substring(endpoint, "127.0.0.1"@) {
        endpoint + "/"@ + bucket + "/"@ + key
    } else {
        "https://"@ + bucket + ".s3."@ + region + ".amazonaws.com/"@ + key
    }
}

/// The address that stands for a photo where there is no store.
pub open spec fn placeholder_url_spec(photo_id: Seq<char>, image_type: ImageType) -> Seq<char> {
    "https://placeholder.com/photos/"@ + file_name_spec(photo_id, image_type)
}

/// Where an accepted upload goes.
#[derive(Debug)]
pub struct UploadPlan {
    /// The kind of image.
    pub image_type: ImageType,
    /// The new identifier of the photo. The name that the uploader gave the
    /// file is not used.
    pub photo_id: String,
    /// The key to store the photo under.
    pub key: String,
    /// The address of the photo once it is stored.
    pub stored_url: String,
    /// The address to give where there is no store.
    pub placeholder_url: String,
}

impl UploadPlan {
    /// The plan is that of a photo of this kind under the settings.
    pub open spec fn fits(&self, config: Config, image_type: ImageType) -> bool {
        &&& self.image_type == image_type
        &&& is_random_uuid_text(self.photo_id@)
        &&& self.key@ == object_key_spec(self.photo_id@, image_type)
        &&& self.stored_url@ == stored_url_spec(
            config.s3_endpoint@,
            config.s3_bucket@,
            config.s3_region@,
            self.key@,
        )
        &&& self.placeholder_url@ == placeholder_url_spec(self.photo_id@, image_type)
    }
}

/// The address of a stored photo.
pub fn stored_url(config: &Config, key: &str) -> (url: String)
    ensures
        url@ == stored_url_spec(config.s3_endpoint@, config.s3_bucket@, config.s3_region@, key@),
{
    let endpoint = config.s3_endpoint.as_str();
    if contains_text(endpoint, "localhost") || contains_text(endpoint, "127.0.0.1") {
        let mut url = concat3(endpoint, "/", config.s3_bucket.as_str());
        url.append("/");
        url.append(key);
        url
    } else {
        let mut url = concat3("https://", config.s3_bucket.as_str(), ".s3.");
        url.append(config.s3_region.as_str());
        url.append(".amazonaws.com/");
        url.append(key);
        url
    }
}

/// Plans an upload: checks it, gives the photo a new identifier and says
/// where it goes.
pub fn plan_upload(config: &Config, size: usize, content_type: &str) -> (r: Result<
    UploadPlan,
    AppError,
>)
    ensures
        r is Ok <==> (size <= MAX_UPLOAD_BYTES && image_type_spec(content_type@) is Some),
        r matches Ok(plan) ==> plan.fits(*config, image_type_spec(content_type@)->0),
        r matches Err(e) ==> e@ == if size > MAX_UPLOAD_BYTES {
            ErrorView::Validation("File size exceeds 5MB limit"@)
        } else {
            ErrorView::Validation(
                "Invalid file type. Only JPEG, PNG, WebP, and GIF are allowed"@,
            )
        },
{
    let image_type = match validate_upload(size, content_type) {
        Ok(t) => t,
        Err(e) => { return Err(e); },
    };
    let photo_id = fresh_id();
    let file_name = concat3(photo_id.as_str(), ".", extension(image_type));
    let key = concat2("photos/", file_name.as_str());
    let url = stored_url(config, key.as_str());
    let placeholder_url = concat2("https://placeholder.com/photos/", file_name.as_str());
    Ok(UploadPlan { image_type, photo_id, key, stored_url: url, placeholder_url })
}

/// What a caller is told when the store refused a photo.
pub fn upload_failed(reason: &str) -> (e: AppError)
    ensures
        e@ == ErrorView::Internal("Failed to upload photo: "@ + reason@),
{
    AppError::Internal(concat2("Failed to upload photo: ", reason))
}

/// A user who has six photos may not add another.
pub fn ensure_photo_slot(photo_count: i64) -> (r: Result<(), AppError>)
    ensures
        r is Ok <==> photo_count < MAX_PHOTOS,
        r matches Err(e) ==> e@ == ErrorView::Validation("Maximum 6 photos allowed"@),
{
    if photo_count >= MAX_PHOTOS {
        Err(AppError::Validation(owned("Maximum 6 photos allowed")))
    } else {
        Ok(())
    }
}

/// A deletion that removed no row found no photo of the user.
pub fn deletion_outcome(rows_affected: u64) -> (r: Result<(), AppError>)
    ensures
        r is Ok <==> rows_affected != 0,
        r matches Err(e) ==> e@ == ErrorView::NotFound("Photo not found"@),
{
    if rows_affected == 0 {
        Err(AppError::NotFound(owned("Photo not found")))
    } else {
        Ok(())
    }
}

} // verus!
