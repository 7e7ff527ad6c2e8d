//! The records of the subsystem: an upload as it arrives, a stored image, and
//! the metadata projection of a stored image.
use vstd::prelude::*;

verus! {

/// One upload as read from the transport: the raw bytes and the mime that the
/// caller declared for them.
#[derive(Debug)]
pub struct UploadBuffer {
    pub bytes: Vec<u8>,
    pub mime: String,
}

/// An image record: the decoded dimensions, the declared mime, the generated
/// filename and URL, the byte length and the raw bytes. Identifiers are the
/// 128-bit values of UUIDs; `0` is the nil UUID, used before storage assigns one.
#[derive(Clone, Debug)]
pub struct Image {
    pub id: u128,
    pub owner_id: u128,
    pub height: u32,
    pub width: u32,
    pub mime: String,
    pub filename: String,
    pub url: String,
    pub size: i32,
    pub image: Vec<u8>,
}

/// The metadata of a stored image, without its bytes.
#[derive(Clone, Debug)]
pub struct ImageResource {
    pub id: u128,
    pub owner_id: u128,
    pub height: u32,
    pub width: u32,
    pub mime: String,
    pub filename: String,
    pub url: String,
    pub size: i32,
}

impl ImageResource {
    /// The metadata of `img`, attributed to `owner_id`.
    pub fn from_image(img: Image, owner_id: u128) -> (r: ImageResource)
        ensures
            r.id == img.id,
            r.owner_id == owner_id,
            r.height == img.height,
            r.width == img.width,
            r.mime@ == img.mime@,
            r.filename@ == img.filename@,
            r.url@ == img.url@,
            r.size == img.size,
    {
        ImageResource {
            owner_id,
            id: img.id,
            height: img.height,
            width: img.width,
            mime: img.mime,
            filename: img.filename,
            url: img.url,
            size: img.size,
        }
    }
}

} // verus!
