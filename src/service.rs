//! The upload pipeline: validate the bytes, synthesize a unique filename,
//! resolve the URL and assemble the record that storage will insert.
use vstd::prelude::*;
use vstd::string::*;
use image::GenericImageView;
use std::hash::{Hash, Hasher};
use std::sync::Arc;
use crate::error::AppError;
use crate::model::{Image, UploadBuffer};
use crate::text::{dec, decimal, str_eq};
use crate::url::{server_url, valid_base, UrlService};

verus! {

/// `image/jpeg`.
pub open spec fn jpeg_mime() -> Seq<char> {
    seq!['i', 'm', 'a', 'g', 'e', '/', 'j', 'p', 'e', 'g']
}

/// `image/png`.
pub open spec fn png_mime() -> Seq<char> {
    seq!['i', 'm', 'a', 'g', 'e', '/', 'p', 'n', 'g']
}

/// The file extension of a supported mime; `None` for any other mime.
pub open spec fn mime_extension(m: Seq<char>) -> Option<Seq<char>> {
    if m == jpeg_mime() {
        Some(seq!['j', 'p', 'e', 'g'])
    } else if m == png_mime() {
        Some(seq!['p', 'n', 'g'])
    } else {
        None
    }
}

/// The message of the error for an unsupported mime `m`:
/// `MIME type <m> is not supported`.
pub open spec fn unsupported_message(m: Seq<char>) -> Seq<char> {
    seq!['M', 'I', 'M', 'E', ' ', 't', 'y', 'p', 'e', ' '] + m + seq![
        ' ',
        'i',
        's',
        ' ',
        'n',
        'o',
        't',
        ' ',
        's',
        'u',
        'p',
        'p',
        'o',
        'r',
        't',
        'e',
        'd',
    ]
}

/// Signed decimal rendering of an integer.
pub open spec fn int_dec(i: int) -> Seq<char> {
    if i < 0 {
        seq!['-'] + dec((-i) as nat)
    } else {
        dec(i as nat)
    }
}

/// The string that is hashed into a filename: the random token, the byte
/// size, the extension and the timestamp in milliseconds, joined by `_`.
pub open spec fn seed_of(token: Seq<char>, size: int, ext: Seq<char>, millis: nat) -> Seq<char> {
    token + seq!['_'] + int_dec(size) + seq!['_'] + ext + seq!['_'] + dec(millis)
}

/// A filename: the decimal hash, a dot, the extension.
pub open spec fn filename_of(h: u64, ext: Seq<char>) -> Seq<char> {
    dec(h as nat) + seq!['.'] + ext
}

/// The shape of a hyphenated lowercase UUID string.
pub open spec fn token_shape(t: Seq<char>) -> bool {
    t.len() == 36 && forall|i: int|
        0 <= i < t.len() ==> (#[trigger] t[i] == '-' || ('0' <= t[i] <= '9') || ('a' <= t[i] <= 'f'))
}

/// A filename that the synthesizer may give for an upload of `size` bytes
/// with extension `ext`: the hash of a seed built from some random token and
/// some timestamp.
pub open spec fn synthesized_name(name: Seq<char>, size: int, ext: Seq<char>) -> bool {
    exists|token: Seq<char>, millis: nat|
        token_shape(token) && name == filename_of(seed_hash(seed_of(token, size, ext, millis)), ext)
}

/// Seeds built from two different random tokens differ, whatever the sizes,
/// extensions and timestamps beside them: the token alone keeps the seeds of
/// two uploads apart, byte-identical content or not.
pub proof fn lemma_distinct_tokens_distinct_seeds(
    t1: Seq<char>,
    t2: Seq<char>,
    size1: int,
    size2: int,
    ext1: Seq<char>,
    ext2: Seq<char>,
    millis1: nat,
    millis2: nat,
)
    requires
        token_shape(t1),
        token_shape(t2),
        t1 != t2,
    ensures
        seed_of(t1, size1, ext1, millis1) != seed_of(t2, size2, ext2, millis2),
{
    assert(seed_of(t1, size1, ext1, millis1).subrange(0, 36) =~= t1);
    assert(seed_of(t2, size2, ext2, millis2).subrange(0, 36) =~= t2);
}

/// What the default hasher yields for a string.
pub uninterp spec fn seed_hash(s: Seq<char>) -> u64;

/// Relies on std's `DefaultHasher` created by `new`: its hashes depend on the
/// hashed string alone.
#[verifier::external_body]
fn hash_seed(s: &str) -> (r: u64)
    ensures
        r == seed_hash(s@),
{
    let mut state = std::collections::hash_map::DefaultHasher::new();
    s.hash(&mut state);
    state.finish()
}

/// Relies on uuid's `Uuid::new_v4` and its `Display`, which writes the
/// hyphenated lowercase form: 36 characters of hex digits and hyphens.
#[verifier::external_body]
fn fresh_token() -> (r: String)
    ensures
        token_shape(r@),
{
    uuid::Uuid::new_v4().to_string()
}

/// Relies on std's `SystemTime::elapsed`, here of `UNIX_EPOCH`: the time since
/// the epoch, or `None` when the system clock reads earlier than the epoch.
#[verifier::external_body]
fn since_epoch() -> (r: Option<std::time::Duration>) {
    std::time::UNIX_EPOCH.elapsed().ok()
}

/// Relies on std's `Duration::as_millis`: the whole milliseconds of a duration.
pub assume_specification[ core::time::Duration::as_millis ](d: &core::time::Duration) -> u128;

/// The width and height that the image codec reports for `b`, or `None`
/// where `b` is not an image it can decode.
pub uninterp spec fn decoded_dims(b: Seq<u8>) -> Option<(u32, u32)>;

/// Relies on image's `load_from_memory`, which guesses the format from the
/// bytes themselves and decodes them, and on `dimensions`, which gives
/// (width, height) of the decoded image.
#[verifier::external_body]
fn decode_dimensions(bytes: &[u8]) -> (r: Option<(u32, u32)>)
    ensures
        r == decoded_dims(bytes@),
{
    match image::load_from_memory(bytes) {
        Ok(img) => Some(img.dimensions()),
        Err(_) => None,
    }
}

/// The largest byte length a stored record can carry.
pub const MAX_STORED_SIZE: usize = 2147483647;

/// The codec decoded the bytes into an image with both sides positive.
pub open spec fn nonempty_image(d: Option<(u32, u32)>) -> bool {
    d is Some && 0 < d->Some_0.0 && 0 < d->Some_0.1
}

/// The relative path under which the image `filename` is served.
pub open spec fn images_path(filename: Seq<char>) -> Seq<char> {
    seq!['a', 'p', 'i', '/', 'v', '1', '/', 'i', 'm', 'a', 'g', 'e', 's', '/'] + filename
}

/// `img` is the record assembled from an upload of `bytes` declared as `mime`,
/// with URLs resolved against `base`: codec dimensions, declared mime, exact
/// size and bytes, a synthesized filename, its URL, and nil ids.
pub open spec fn assembled_from(img: Image, bytes: Seq<u8>, mime: Seq<char>, base: Seq<char>) -> bool {
    &&& img.id == 0
    &&& img.owner_id == 0
    &&& img.width == decoded_dims(bytes)->Some_0.0
    &&& img.height == decoded_dims(bytes)->Some_0.1
    &&& img.mime@ == mime
    &&& img.size as int == bytes.len()
    &&& img.image@ == bytes
    &&& synthesized_name(img.filename@, bytes.len() as int, mime_extension(mime)->Some_0)
    &&& img.url@ == server_url(base, images_path(img.filename@))
}

/// Renders a signed integer in decimal, with a leading `-` when negative.
pub fn int_decimal(i: i32) -> (r: String)
    ensures
        r@ == int_dec(i as int),
{
    if i < 0 {
        proof {
            reveal_strlit("-");
            assert("-"@ =~= seq!['-']);
        }
        let mut s = String::from_str("-");
        let d = decimal((0 - (i as i64)) as u128);
        s.append(d.as_str());
        s
    } else {
        decimal(i as u128)
    }
}

/// The seed string of an upload: token, size, extension and timestamp,
/// joined by `_`.
pub fn seed_string(token: &str, size: i32, ext: &str, millis: u128) -> (r: String)
    ensures
        r@ == seed_of(token@, size as int, ext@, millis as nat),
{
    proof {
        reveal_strlit("_");
        assert("_"@ =~= seq!['_']);
    }
    let mut s = String::from_str(token);
    s.append("_");
    let sz = int_decimal(size);
    s.append(sz.as_str());
    s.append("_");
    s.append(ext);
    s.append("_");
    let ms = decimal(millis);
    s.append(ms.as_str());
    s
}

/// The filename for hash `h` and extension `ext`: `<h>.<ext>`.
pub fn filename_from_hash(h: u64, ext: &str) -> (r: String)
    ensures
        r@ == filename_of(h, ext@),
{
    proof {
        reveal_strlit(".");
        assert("."@ =~= seq!['.']);
    }
    let mut s = decimal(h as u128);
    s.append(".");
    s.append(ext);
    s
}

/// Accepts uploads, derives their names and URLs, and holds the storage
/// handle `D` (a connection pool) through which records are inserted and
/// looked up.
#[derive(Clone)]
pub struct ImageService<D> {
    db_conn: D,
    url_service: Arc<UrlService>,
}

impl<D> ImageService<D> {
    /// The base address that URLs are resolved against.
    pub closed spec fn base_spec(&self) -> Seq<char> {
        self.url_service.base_spec()
    }

    /// The storage handle.
    pub closed spec fn db_spec(&self) -> D {
        self.db_conn
    }

    pub fn new(db_conn: D, url_service: Arc<UrlService>) -> (r: ImageService<D>)
        ensures
            r.base_spec() == url_service.base_spec(),
            r.db_spec() == db_conn,
    {
        ImageService { db_conn, url_service }
    }

    /// The storage handle.
    pub fn db_conn(&self) -> (r: &D)
        ensures
            *r == self.db_spec(),
    {
        &self.db_conn
    }

    /// The file extension of a supported mime, or `UnsupportedFormat`.
    pub fn extension_from_mime(&self, mime: &str) -> (r: Result<String, AppError>)
        ensures
            mime_extension(mime@) is Some ==> (r is Ok && r->Ok_0@ == mime_extension(mime@)->Some_0),
            mime_extension(mime@) is None ==> (r is Err && r->Err_0 is UnsupportedFormat
                && r->Err_0->UnsupportedFormat_0@ == unsupported_message(mime@)),
    {
        proof {
            reveal_strlit("image/jpeg");
            reveal_strlit("image/png");
            reveal_strlit("jpeg");
            reveal_strlit("png");
            assert("image/jpeg"@ =~= jpeg_mime());
            assert("image/png"@ =~= png_mime());
            assert("jpeg"@ =~= seq!['j', 'p', 'e', 'g']);
            assert("png"@ =~= seq!['p', 'n', 'g']);
        }
        if str_eq(mime, "image/jpeg") {
            Ok(String::from_str("jpeg"))
        } else if str_eq(mime, "image/png") {
            Ok(String::from_str("png"))
        } else {
            proof {
                reveal_strlit("MIME type ");
                reveal_strlit(" is not supported");
            }
            let mut m = String::from_str("MIME type ");
            m.append(mime);
            m.append(" is not supported");
            assert(m@ =~= unsupported_message(mime@));
            Err(AppError::UnsupportedFormat(m))
        }
    }

    /// A fresh filename for an upload of `size` bytes with the given mime:
    /// the hash of a seed built from a random token, the size, the extension
    /// and the current time in milliseconds (taken as `0` should the clock read
    /// before the epoch), followed by the extension. `UnsupportedFormat`
    /// exactly when the mime is not supported.
    pub fn make_filename(&self, size: i32, mime: &str) -> (r: Result<String, AppError>)
        ensures
            mime_extension(mime@) is None ==> (r is Err && r->Err_0 is UnsupportedFormat
                && r->Err_0->UnsupportedFormat_0@ == unsupported_message(mime@)),
            mime_extension(mime@) is Some ==> (r is Ok && synthesized_name(
                r->Ok_0@,
                size as int,
                mime_extension(mime@)->Some_0,
            )),
    {
        let file_extension = match self.extension_from_mime(mime) {
            Ok(e) => e,
            Err(e) => return Err(e),
        };
        let millis: u128 = match since_epoch() {
            Some(d) => d.as_millis(),
            None => 0,
        };
        let token = fresh_token();
        let seed = seed_string(token.as_str(), size, file_extension.as_str(), millis);
        let h = hash_seed(seed.as_str());
        let name = filename_from_hash(h, file_extension.as_str());
        assert(token_shape(token@) && name@ == filename_of(
            seed_hash(seed_of(token@, size as int, file_extension@, millis as nat)),
            file_extension@,
        ));
        Ok(name)
    }

    /// Validates an upload and assembles its record. The gates run in order,
    /// and the first that fails decides the error: an unsupported declared
    /// mime (`UnsupportedFormat`), a buffer too long to store (`ReadError`),
    /// bytes the codec cannot decode into an image with both sides positive
    /// (`DecodeError`), a bad base address (`ConfigError`). The declared mime never decides
    /// whether the bytes are an image: the codec does.
    pub fn from_part(&self, part: UploadBuffer) -> (r: Result<Image, AppError>)
        ensures
            mime_extension(part.mime@) is None ==> (r is Err && r->Err_0 is UnsupportedFormat
                && r->Err_0->UnsupportedFormat_0@ == unsupported_message(part.mime@)),
            mime_extension(part.mime@) is Some && part.bytes@.len() > MAX_STORED_SIZE ==> (r is Err
                && r->Err_0 is ReadError),
            mime_extension(part.mime@) is Some && part.bytes@.len() <= MAX_STORED_SIZE
                && !nonempty_image(decoded_dims(part.bytes@)) ==> (r is Err && r->Err_0 is DecodeError),
            mime_extension(part.mime@) is Some && part.bytes@.len() <= MAX_STORED_SIZE
                && nonempty_image(decoded_dims(part.bytes@)) && !valid_base(self.base_spec()) ==> (r is Err
                && r->Err_0 is ConfigError),
            mime_extension(part.mime@) is Some && part.bytes@.len() <= MAX_STORED_SIZE
                && nonempty_image(decoded_dims(part.bytes@)) && valid_base(self.base_spec()) ==> (r is Ok
                && assembled_from(r->Ok_0, part.bytes@, part.mime@, self.base_spec())),
    {
        let UploadBuffer { bytes, mime } = part;
        if let Err(e) = self.extension_from_mime(mime.as_str()) {
            return Err(e);
        }
        if bytes.len() > MAX_STORED_SIZE {
            return Err(AppError::ReadError(String::from_str("upload is too large to store")));
        }
        let size = bytes.len() as i32;
        let (width, height) = match decode_dimensions(bytes.as_slice()) {
            Some(d) => d,
            None => {
                return Err(AppError::DecodeError(String::from_str("bytes are not a decodable image")));
            },
        };
        if width == 0 || height == 0 {
            return Err(AppError::DecodeError(String::from_str("image has an empty side")));
        }
        let filename = match self.make_filename(size, mime.as_str()) {
            Ok(f) => f,
            Err(e) => return Err(e),
        };
        proof {
            reveal_strlit("api/v1/images/");
            assert("api/v1/images/"@ =~= images_path(Seq::empty()));
        }
        let mut path = String::from_str("api/v1/images/");
        path.append(filename.as_str());
        assert(path@ =~= images_path(filename@));
        let url = match self.url_service.create_server_url(path.as_str()) {
            Ok(u) => u,
            Err(e) => return Err(e),
        };
        Ok(Image {
            id: 0,
            owner_id: 0,
            url,
            filename,
            image: bytes,
            size,
            mime,
            height,
            width,
        })
    }
}

} // verus!
