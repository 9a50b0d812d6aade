//! Content addressing: each image is stored under a path derived from the MD5
//! digest of its source bytes and the configured thumbnail geometry.
use vstd::prelude::*;
use crate::text::{decimal, push_decimal};

verus! {

/// The lowercase hexadecimal text of the MD5 digest of `bytes`.
pub uninterp spec fn md5_hex_of(bytes: Seq<u8>) -> Seq<char>;

/// Whether `c` is a lowercase hexadecimal digit.
pub open spec fn is_lower_hex(c: char) -> bool {
    ('0' <= c && c <= '9') || ('a' <= c && c <= 'f')
}

/// Relies on `md5::compute` and the `LowerHex` format of its `Digest`, which
/// writes each of the sixteen digest bytes as two lowercase hex digits.
#[verifier::external_body]
fn md5_hex(bytes: &[u8]) -> (r: String)
    ensures
        r@ == md5_hex_of(bytes@),
        r@.len() == 32,
        forall|i: int| 0 <= i < 32 ==> is_lower_hex(#[trigger] r@[i]),
{
    format!("{:x}", md5::compute(bytes))
}

/// The directory of one thumbnail geometry: `{width}x{height}`.
pub open spec fn size_dir(width: u32, height: u32) -> Seq<char> {
    decimal(width as nat) + "x"@ + decimal(height as nat)
}

/// The storage-relative path of the thumbnail of `bytes`:
/// `{width}x{height}/{md5 hex}.{ext}`.
pub open spec fn content_path(width: u32, height: u32, ext: Seq<char>, bytes: Seq<u8>) -> Seq<
    char,
> {
    size_dir(width, height) + "/"@ + md5_hex_of(bytes) + "."@ + ext
}

/// Where thumbnails of one geometry are kept, below a base directory.
#[derive(Debug, Clone)]
pub struct ThumbnailStorage {
    base_path: String,
    width: u32,
    height: u32,
    ext: String,
}

/// The mathematical value of a `ThumbnailStorage`.
pub struct StorageLayout {
    pub base_path: Seq<char>,
    pub width: u32,
    pub height: u32,
    pub ext: Seq<char>,
}

impl View for ThumbnailStorage {
    type V = StorageLayout;

    closed spec fn view(&self) -> StorageLayout {
        StorageLayout {
            base_path: self.base_path@,
            width: self.width,
            height: self.height,
            ext: self.ext@,
        }
    }
}

impl ThumbnailStorage {
    /// A storage rooted at `base_path` for thumbnails of the given geometry and
    /// file extension. The directory itself is made by the caller.
    pub fn new(base_path: &str, img_width: u32, img_height: u32, img_ext: &str) -> (r: Self)
        ensures
            r@ == (StorageLayout {
                base_path: base_path@,
                width: img_width,
                height: img_height,
                ext: img_ext@,
            }),
    {
        ThumbnailStorage {
            base_path: base_path.to_string(),
            width: img_width,
            height: img_height,
            ext: img_ext.to_string(),
        }
    }

    /// The base directory.
    pub fn get_base_path(&self) -> (r: String)
        ensures
            r@ == self@.base_path,
    {
        self.base_path.clone()
    }

    /// The directory, relative to the base, that holds this geometry's files.
    pub fn get_sub_path(&self) -> (r: String)
        ensures
            r@ == size_dir(self@.width, self@.height),
    {
        let mut r = String::new();
        push_decimal(&mut r, self.width as u64);
        r.append("x");
        push_decimal(&mut r, self.height as u64);
        r
    }

    /// The storage-relative path under which the thumbnail of `bytes` lives.
    pub fn relative_path(&self, bytes: &[u8]) -> (r: String)
        ensures
            r@ == content_path(self@.width, self@.height, self@.ext, bytes@),
    {
        let mut r = self.get_sub_path();
        r.append("/");
        let hash = md5_hex(bytes);
        r.append(hash.as_str());
        r.append(".");
        r.append(self.ext.as_str());
        r
    }

    /// The handle of the thumbnail of `bytes`, given whether a file was found
    /// at its path.
    pub fn get_image_handle(&self, bytes: &[u8], stored: bool) -> (r: ImageHandle)
        ensures
            r@ == (content_path(self@.width, self@.height, self@.ext, bytes@), stored),
    {
        ImageHandle { path: self.relative_path(bytes), found: stored }
    }
}

/// A content address and whether a file stood there when it was computed.
#[derive(Debug, Clone)]
pub struct ImageHandle {
    path: String,
    found: bool,
}

impl View for ImageHandle {
    type V = (Seq<char>, bool);

    closed spec fn view(&self) -> (Seq<char>, bool) {
        (self.path@, self.found)
    }
}

impl ImageHandle {
    /// Whether the thumbnail was already stored.
    pub fn already_exists(&self) -> (r: bool)
        ensures
            r == self@.1,
    {
        self.found
    }

    /// The storage-relative path.
    pub fn path(&self) -> (r: String)
        ensures
            r@ == self@.0,
    {
        self.path.clone()
    }
}

/// Why a thumbnail could not be stored.
#[derive(Debug)]
pub enum StorageError {
    FailedInit(String),
    FailedStore(String),
}

/// The mathematical value of a `StorageError`.
pub enum StorageFault {
    FailedInit(Seq<char>),
    FailedStore(Seq<char>),
}

impl View for StorageError {
    type V = StorageFault;

    open spec fn view(&self) -> StorageFault {
        match self {
            StorageError::FailedInit(d) => StorageFault::FailedInit(d@),
            StorageError::FailedStore(d) => StorageFault::FailedStore(d@),
        }
    }
}

/// The human-readable text of a storage failure.
pub open spec fn storage_message(f: StorageFault) -> Seq<char> {
    match f {
        StorageFault::FailedInit(d) => "Storage initialization error: "@ + d,
        StorageFault::FailedStore(d) => "Store image error: "@ + d,
    }
}

impl StorageError {
    /// The human-readable text of this failure.
    pub fn message(&self) -> (r: String)
        ensures
            r@ == storage_message(self@),
    {
        match self {
            StorageError::FailedInit(d) => {
                let mut r = String::from_str("Storage initialization error: ");
                r.append(d.as_str());
                r
            },
            StorageError::FailedStore(d) => {
                let mut r = String::from_str("Store image error: ");
                r.append(d.as_str());
                r
            },
        }
    }
}

} // verus!
