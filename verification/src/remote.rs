use vstd::prelude::*;
use vstd::arithmetic::power2::{lemma2_to64, lemma2_to64_rest, lemma_pow2_adds, pow2};
use vstd::string::StrSliceExecFns;

verus! {

/// One object in the remote store: its key, its size, its last-modified time
/// as whole seconds since the Unix epoch when the store reported one, and a
/// content hash derived from the store's integrity tag when that tag was an
/// unambiguous single-part digest.
#[derive(Debug, PartialEq, Eq)]
pub struct RemoteFile {
    pub key: String,
    pub len: u64,
    pub last_modified: Option<i64>,
    pub e_tag: Option<u128>,
}

impl Clone for RemoteFile {
    fn clone(&self) -> (res: Self)
        ensures
            res == *self,
    {
        RemoteFile {
            key: self.key.clone(),
            len: self.len,
            last_modified: self.last_modified,
            e_tag: self.e_tag,
        }
    }
}

/// One raw tuple of a remote listing page, exactly as the store reports it:
/// every field may be absent, the timestamp is still text, and the integrity
/// tag is still the quoted raw form.
pub struct ObjectRecord {
    pub key: Option<String>,
    pub size: Option<i64>,
    pub last_modified: Option<String>,
    pub e_tag: Option<String>,
}

pub open spec fn is_hex_digit(c: char) -> bool {
    ('0' as u32 <= c as u32 && c as u32 <= '9' as u32) || ('a' as u32 <= c as u32 && c as u32
        <= 'f' as u32) || ('A' as u32 <= c as u32 && c as u32 <= 'F' as u32)
}

pub open spec fn hex_digit_value(c: char) -> int {
    if 'a' as u32 <= c as u32 && c as u32 <= 'f' as u32 {
        c as u32 - 'a' as u32 + 10
    } else if 'A' as u32 <= c as u32 && c as u32 <= 'F' as u32 {
        c as u32 - 'A' as u32 + 10
    } else {
        c as u32 - '0' as u32
    }
}

pub open spec fn all_hex(s: Seq<char>) -> bool {
    forall|i: int| 0 <= i < s.len() ==> is_hex_digit(s[i])
}

/// The integer a sequence of hex digits denotes, most significant first.
pub open spec fn hex_value(s: Seq<char>) -> int
    decreases s.len(),
{
    if s.len() == 0 {
        0
    } else {
        hex_value(s.drop_last()) * 16 + hex_digit_value(s.last())
    }
}

/// The content hash of an integrity tag: defined exactly when the tag is a
/// quoted plain 32-hex-digit digest. Composite multi-part tags, which carry a
/// part-count suffix, are not digests and yield nothing.
pub open spec fn spec_parse_e_tag(s: Seq<char>) -> Option<u128> {
    if s.len() == 34 && s[0] == '"' && s[33] == '"' && all_hex(s.subrange(1, 33)) {
        Some(hex_value(s.subrange(1, 33)) as u128)
    } else {
        None
    }
}

proof fn lemma_pow2_128()
    ensures
        pow2(128) == 0x100000000000000000000000000000000,
{
    lemma2_to64();
    lemma2_to64_rest();
    lemma_pow2_adds(64, 64);
    assert(pow2(128) == 0x100000000000000000000000000000000) by (nonlinear_arith)
        requires
            pow2(128) == pow2(64) * pow2(64),
            pow2(64) == 0x10000000000000000,
    ;
}

proof fn lemma_hex_value_bound(s: Seq<char>)
    requires
        all_hex(s),
    ensures
        0 <= hex_value(s) < pow2(4 * s.len()),
    decreases s.len(),
{
    lemma2_to64();
    if s.len() == 0 {
    } else {
        assert(all_hex(s.drop_last()));
        lemma_hex_value_bound(s.drop_last());
        lemma_pow2_adds(4 * (s.len() - 1) as nat, 4);
        assert(0 <= hex_digit_value(s.last()) < 16);
        assert(hex_value(s.drop_last()) * 16 + hex_digit_value(s.last()) < pow2(
            4 * (s.len() - 1) as nat,
        ) * 16) by (nonlinear_arith)
            requires
                hex_value(s.drop_last()) < pow2(4 * (s.len() - 1) as nat),
                hex_digit_value(s.last()) < 16,
        ;
    }
}

/// Parses a remote integrity tag into a content hash: `Some` exactly for a
/// quoted single-part 32-hex-digit value, `None` for everything else.
pub fn parse_e_tag(e_tag: &str) -> (r: Option<u128>)
    ensures
        r == spec_parse_e_tag(e_tag@),
{
    let n = e_tag.unicode_len();
    if n != 34 {
        return None;
    }
    if e_tag.get_char(0) != '"' || e_tag.get_char(33) != '"' {
        return None;
    }
    let mut acc: u128 = 0;
    let mut i: usize = 1;
    while i < 33
        invariant
            1 <= i <= 33,
            e_tag@.len() == 34,
            all_hex(e_tag@.subrange(1, i as int)),
            acc == hex_value(e_tag@.subrange(1, i as int)),
        decreases 33 - i,
    {
        let c = e_tag.get_char(i);
        let cu = c as u32;
        let v: u32;
        if 97 <= cu && cu <= 102 {
            v = cu - 97 + 10;
        } else if 65 <= cu && cu <= 70 {
            v = cu - 65 + 10;
        } else if 48 <= cu && cu <= 57 {
            v = cu - 48;
        } else {
            proof {
                assert(!is_hex_digit(e_tag@[i as int]));
                assert(e_tag@.subrange(1, 33)[i as int - 1] == e_tag@[i as int]);
                assert(!all_hex(e_tag@.subrange(1, 33)));
            }
            return None;
        }
        proof {
            assert(is_hex_digit(e_tag@[i as int]));
            assert(v == hex_digit_value(e_tag@[i as int]));
            let pre = e_tag@.subrange(1, i as int);
            let nxt = e_tag@.subrange(1, i as int + 1);
            assert(nxt.drop_last() =~= pre);
            assert(nxt.last() == e_tag@[i as int]);
            assert(all_hex(nxt));
            lemma_hex_value_bound(pre);
            lemma2_to64();
            lemma_pow2_adds(4 * pre.len(), 4);
            lemma_pow2_128();
            if 4 * pre.len() + 4 < 128 {
                vstd::arithmetic::power2::lemma_pow2_strictly_increases(4 * pre.len() + 4, 128);
            }
            assert(acc * 16 + v < pow2(4 * pre.len()) * 16) by (nonlinear_arith)
                requires
                    acc < pow2(4 * pre.len()),
                    v < 16,
            ;
            assert(pow2(4 * pre.len()) * 16 == pow2(4 * pre.len() + 4));
        }
        acc = acc * 16 + v as u128;
        i += 1;
    }
    Some(acc)
}

/// What `time::OffsetDateTime::parse` makes of a string under the RFC 3339
/// well-known format, reduced to whole seconds since the Unix epoch; `None`
/// when the string is not a valid RFC 3339 timestamp. A function of the text
/// alone.
pub uninterp spec fn rfc3339_unix(s: Seq<char>) -> Option<i64>;

/// Relies on `time::OffsetDateTime::parse` with `Rfc3339`, and on
/// `OffsetDateTime::unix_timestamp` to read the parsed instant out as plain
/// seconds: both are pure functions of the input text.
#[verifier::external_body]
fn parse_rfc3339_unix(s: &str) -> (r: Option<i64>)
    ensures
        r == rfc3339_unix(s@),
{
    match time::OffsetDateTime::parse(s, &time::format_description::well_known::Rfc3339) {
        Ok(t) => Some(t.unix_timestamp()),
        Err(_) => None,
    }
}

pub open spec fn spec_size(sz: i64) -> u64 {
    if sz >= 0 {
        sz as u64
    } else {
        0
    }
}

pub open spec fn spec_last_modified(o: Option<String>) -> Option<i64> {
    match o {
        Some(s) => rfc3339_unix(s@),
        None => None,
    }
}

pub open spec fn spec_e_tag_hash(o: Option<String>) -> Option<u128> {
    match o {
        Some(s) => spec_parse_e_tag(s@),
        None => None,
    }
}

/// The remote entries that one page of raw listing records yields, in order:
/// records without a key or a size are not objects and are dropped, timestamps
/// are reduced to seconds, and integrity tags to content hashes where they are
/// unambiguous digests.
pub open spec fn ingested(recs: Seq<ObjectRecord>) -> Seq<RemoteFile>
    decreases recs.len(),
{
    if recs.len() == 0 {
        Seq::empty()
    } else {
        let rest = ingested(recs.drop_last());
        let rec = recs.last();
        match (rec.key, rec.size) {
            (Some(k), Some(sz)) => rest.push(
                RemoteFile {
                    key: k,
                    len: spec_size(sz),
                    last_modified: spec_last_modified(rec.last_modified),
                    e_tag: spec_e_tag_hash(rec.e_tag),
                },
            ),
            _ => rest,
        }
    }
}

/// Folds one page of listing records into the remote inventory under
/// construction. Pages arrive in pagination order; this appends in order.
pub fn ingest_listing_page(entries: &mut Vec<RemoteFile>, page: &Vec<ObjectRecord>)
    ensures
        final(entries)@ == old(entries)@ + ingested(page@),
{
    let ghost entries0 = entries@;
    let mut i: usize = 0;
    while i < page.len()
        invariant
            i <= page.len(),
            entries@ == entries0 + ingested(page@.subrange(0, i as int)),
        decreases page.len() - i,
    {
        let rec = &page[i];
        if let Some(k) = &rec.key {
            if let Some(sz) = rec.size {
                let lm = match &rec.last_modified {
                    Some(s) => parse_rfc3339_unix(s.as_str()),
                    None => None,
                };
                let et = match &rec.e_tag {
                    Some(s) => parse_e_tag(s.as_str()),
                    None => None,
                };
                let len: u64 = if sz >= 0 {
                    sz as u64
                } else {
                    0
                };
                entries.push(RemoteFile { key: k.clone(), len, last_modified: lm, e_tag: et });
            }
        }
        proof {
            let pre = page@.subrange(0, i as int);
            let nxt = page@.subrange(0, i as int + 1);
            assert(nxt.drop_last() =~= pre);
            assert(nxt.last() == page@[i as int]);
            assert(entries@ =~= entries0 + ingested(nxt));
        }
        i += 1;
    }
    proof {
        assert(page@.subrange(0, page@.len() as int) =~= page@);
    }
}

} // verus!
