use vstd::prelude::*;
use md5::Digest;

verus! {

/// The MD5 digest of a byte sequence, as the `md-5` crate computes it, read
/// as one big-endian 128-bit integer. A pure function of the bytes alone.
pub uninterp spec fn md5_of(data: Seq<u8>) -> u128;

/// Relies on `md5::Md5::digest` of the `md-5` crate: the MD5 digest of the
/// input bytes, 16 bytes, packed here into a `u128` big-endian.
#[verifier::external_body]
fn md5_digest(data: &Vec<u8>) -> (h: u128)
    ensures
        h == md5_of(data@),
{
    let digest: [u8; 16] = md5::Md5::digest(data.as_slice()).into();
    u128::from_be_bytes(digest)
}

/// One regular file found under the sync root: its remote key, the absolute
/// path for re-reading the bytes at upload time, its size, and the MD5 digest
/// of its full contents.
#[derive(Debug, PartialEq, Eq)]
pub struct LocalFile {
    pub key: String,
    pub absolute_path: String,
    pub len: u64,
    pub md5: u128,
}

impl Clone for LocalFile {
    fn clone(&self) -> (res: Self)
        ensures
            res == *self,
    {
        LocalFile {
            key: self.key.clone(),
            absolute_path: self.absolute_path.clone(),
            len: self.len,
            md5: self.md5,
        }
    }
}

/// Builds the inventory entry for one scanned file from its key, its absolute
/// path, and its full contents. The digest covers every byte of `data`.
pub fn local_file_from_bytes(key: String, absolute_path: String, data: &Vec<u8>) -> (f: LocalFile)
    ensures
        f.key == key,
        f.absolute_path == absolute_path,
        f.len == data@.len(),
        f.md5 == md5_of(data@),
{
    let len: usize = data.len();
    let md5 = md5_digest(data);
    LocalFile { key, absolute_path, len: len as u64, md5 }
}

} // verus!
