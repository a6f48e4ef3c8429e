use vstd::prelude::*;
use crate::error::SyncError;
use crate::local::LocalFile;
use crate::strutil::{spec_ends_with, spec_starts_with, str_ends_with, str_starts_with};

verus! {

/// The cache-lifetime tier of a key: short for everything by default, medium
/// for the frequently revised catalog namespaces, long for static images.
#[derive(Clone, Copy, Debug, PartialEq, Eq)]
pub enum CacheClass {
    Short,
    Medium,
    Long,
}

/// The tier a key falls in, decided by its path prefix and extension alone.
pub open spec fn cache_class_of(key: Seq<char>) -> CacheClass {
    if spec_starts_with(key, "static/"@) {
        if spec_ends_with(key, ".jpg"@) {
            CacheClass::Long
        } else {
            CacheClass::Short
        }
    } else if spec_starts_with(key, "consoles/"@) || spec_starts_with(key, "cartridges/"@) {
        CacheClass::Medium
    } else {
        CacheClass::Short
    }
}

/// The cache-control header value of each tier.
pub open spec fn cache_control_value(c: CacheClass) -> Seq<char> {
    match c {
        CacheClass::Short => "max-age=3600,public"@,
        CacheClass::Medium => "max-age=86400,public"@,
        CacheClass::Long => "max-age=1209600,public"@,
    }
}

/// Resolves the cache-lifetime tier of a key. A pure mapping with no
/// filesystem or network part.
pub fn cache_class_of_key(key: &str) -> (c: CacheClass)
    ensures
        c == cache_class_of(key@),
{
    if str_starts_with(key, "static/") {
        if str_ends_with(key, ".jpg") {
            CacheClass::Long
        } else {
            CacheClass::Short
        }
    } else if str_starts_with(key, "consoles/") || str_starts_with(key, "cartridges/") {
        CacheClass::Medium
    } else {
        CacheClass::Short
    }
}

impl LocalFile {
    /// The cache-control header this file is uploaded with.
    pub fn cache_control(&self) -> (r: &'static str)
        ensures
            r@ == cache_control_value(cache_class_of(self.key@)),
    {
        match cache_class_of_key(self.key.as_str()) {
            CacheClass::Short => "max-age=3600,public",
            CacheClass::Medium => "max-age=86400,public",
            CacheClass::Long => "max-age=1209600,public",
        }
    }
}

/// What the standard base64 alphabet, with padding, makes of the 16 digest
/// bytes of `h`, most significant byte first. A pure function of the digest.
pub uninterp spec fn base64_md5(h: u128) -> Seq<char>;

/// Relies on `base64::engine::general_purpose::STANDARD` and its
/// `Engine::encode`: the padded standard-alphabet encoding of the 16 digest
/// bytes, a pure function of its input.
#[verifier::external_body]
fn base64_of_md5(h: u128) -> (s: String)
    ensures
        s@ == base64_md5(h),
{
    base64::Engine::encode(&base64::engine::general_purpose::STANDARD, h.to_be_bytes())
}

#[verifier::external_type_specification]
#[verifier::external_body]
pub struct ExSharedMimeInfo(xdg_mime::SharedMimeInfo);

/// Relies on `xdg_mime::SharedMimeInfo::guess_mime_type` and `Guess`: sniffs
/// a MIME type for the named file from its bytes against whatever mime
/// database this process loaded from disk. The outcome depends on that
/// database, so nothing is assumed of it: the pair is the guessed type's
/// essence string and whether the sniffer was uncertain.
#[verifier::external_body]
fn guess_mime(db: &xdg_mime::SharedMimeInfo, path: &str, data: &[u8]) -> (r: (String, bool)) {
    let guess = db.guess_mime_type().path(path).data(data).guess();
    (guess.mime_type().essence_str().to_owned(), guess.uncertain())
}

/// Everything the executor needs to put one object with correct delivery
/// metadata.
#[derive(Debug, PartialEq, Eq)]
pub struct UploadMeta {
    pub key: String,
    pub content_type: String,
    pub content_md5: String,
    pub cache_control: String,
}

/// Resolves the delivery metadata of one upload candidate from the sniffer's
/// verdict. An uncertain verdict is fatal for the candidate: the error names
/// the key, and no metadata with a guessed type is ever produced.
pub fn upload_metadata(file: &LocalFile, essence: String, uncertain: bool) -> (r: Result<
    UploadMeta,
    SyncError,
>)
    ensures
        uncertain ==> (r matches Err(SyncError::ClassificationUncertain { key }) && key@
            == file.key@),
        !uncertain ==> (r matches Ok(m) && m.key@ == file.key@ && m.content_type == essence
            && m.content_md5@ == base64_md5(file.md5) && m.cache_control@ == cache_control_value(
            cache_class_of(file.key@),
        )),
{
    if uncertain {
        return Err(SyncError::ClassificationUncertain { key: file.key.clone() });
    }
    let content_md5 = base64_of_md5(file.md5);
    let cc = file.cache_control();
    Ok(
        UploadMeta {
            key: file.key.clone(),
            content_type: essence,
            content_md5,
            cache_control: cc.to_owned(),
        },
    )
}

/// Classifies one upload candidate: sniffs the content type from the file
/// name and bytes, then resolves the full delivery metadata. Fails with the
/// classification error — never with a guessed type — exactly when the
/// sniffer is uncertain.
pub fn classify(db: &xdg_mime::SharedMimeInfo, file: &LocalFile, data: &Vec<u8>) -> (r: Result<
    UploadMeta,
    SyncError,
>)
    ensures
        r matches Ok(m) ==> m.key@ == file.key@ && m.content_md5@ == base64_md5(file.md5)
            && m.cache_control@ == cache_control_value(cache_class_of(file.key@)),
        r matches Err(e) ==> (e matches SyncError::ClassificationUncertain { key } && key@
            == file.key@),
{
    let (essence, uncertain) = guess_mime(db, file.absolute_path.as_str(), data.as_slice());
    upload_metadata(file, essence, uncertain)
}

} // verus!
