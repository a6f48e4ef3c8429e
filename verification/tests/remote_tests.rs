use gbhwdb::local::local_file_from_bytes;
use gbhwdb::remote::{ingest_listing_page, parse_e_tag, ObjectRecord, RemoteFile};

const MD5_EMPTY: u128 = 0xd41d8cd98f00b204e9800998ecf8427e;
const MD5_ABC: u128 = 0x900150983cd24fb0d6963f7d28e17f72;

#[test]
fn e_tag_plain_digest() {
    assert_eq!(
        parse_e_tag("\"d41d8cd98f00b204e9800998ecf8427e\""),
        Some(MD5_EMPTY)
    );
    assert_eq!(
        parse_e_tag("\"900150983CD24FB0D6963F7D28E17F72\""),
        Some(MD5_ABC)
    );
    assert_eq!(
        parse_e_tag("\"00000000000000000000000000000001\""),
        Some(1)
    );
}

#[test]
fn e_tag_multipart_or_malformed() {
    // A composite multi-part tag carries a part-count suffix and is no digest.
    assert_eq!(parse_e_tag("\"d41d8cd98f00b204e9800998ecf8427e-2\""), None);
    // Unquoted, too short, too long, or with a non-hex character.
    assert_eq!(parse_e_tag("d41d8cd98f00b204e9800998ecf8427e"), None);
    assert_eq!(parse_e_tag("\"d41d8c\""), None);
    assert_eq!(parse_e_tag("\"d41d8cd98f00b204e9800998ecf8427\""), None);
    assert_eq!(parse_e_tag("\"g41d8cd98f00b204e9800998ecf8427e\""), None);
    assert_eq!(parse_e_tag(""), None);
}

fn record(
    key: Option<&str>,
    size: Option<i64>,
    last_modified: Option<&str>,
    e_tag: Option<&str>,
) -> ObjectRecord {
    ObjectRecord {
        key: key.map(|s| s.to_string()),
        size,
        last_modified: last_modified.map(|s| s.to_string()),
        e_tag: e_tag.map(|s| s.to_string()),
    }
}

#[test]
fn ingest_page_converts_records() {
    let mut entries: Vec<RemoteFile> = Vec::new();
    let page = vec![
        record(
            Some("a.txt"),
            Some(12),
            Some("2020-01-01T00:00:00Z"),
            Some("\"d41d8cd98f00b204e9800998ecf8427e\""),
        ),
        // No key: not an object, dropped.
        record(None, Some(4), None, None),
        // No size: dropped.
        record(Some("no-size"), None, None, None),
        // Unparsable timestamp and composite tag: entry kept, both fields unknown.
        record(Some("b.bin"), Some(7), Some("yesterday"), Some("\"abc-2\"")),
        // A store reporting a negative size yields zero.
        record(Some("c"), Some(-5), None, None),
    ];
    ingest_listing_page(&mut entries, &page);
    assert_eq!(entries.len(), 3);
    assert_eq!(entries[0].key, "a.txt");
    assert_eq!(entries[0].len, 12);
    assert_eq!(entries[0].last_modified, Some(1577836800));
    assert_eq!(entries[0].e_tag, Some(MD5_EMPTY));
    assert_eq!(entries[1].key, "b.bin");
    assert_eq!(entries[1].last_modified, None);
    assert_eq!(entries[1].e_tag, None);
    assert_eq!(entries[2].len, 0);
}

#[test]
fn ingest_appends_across_pages() {
    let mut entries: Vec<RemoteFile> = Vec::new();
    ingest_listing_page(&mut entries, &vec![record(Some("one"), Some(1), None, None)]);
    ingest_listing_page(&mut entries, &vec![record(Some("two"), Some(2), None, None)]);
    assert_eq!(entries.len(), 2);
    assert_eq!(entries[0].key, "one");
    assert_eq!(entries[1].key, "two");
}

#[test]
fn timestamp_offsets_are_respected() {
    let mut entries: Vec<RemoteFile> = Vec::new();
    let page = vec![record(
        Some("t"),
        Some(1),
        Some("2020-01-01T01:00:00+01:00"),
        None,
    )];
    ingest_listing_page(&mut entries, &page);
    assert_eq!(entries[0].last_modified, Some(1577836800));
}

#[test]
fn local_file_digest_of_contents() {
    let f = local_file_from_bytes("e".to_string(), "/build/e".to_string(), &Vec::new());
    assert_eq!(f.md5, MD5_EMPTY);
    assert_eq!(f.len, 0);
    let g = local_file_from_bytes("abc".to_string(), "/build/abc".to_string(), &b"abc".to_vec());
    assert_eq!(g.md5, MD5_ABC);
    assert_eq!(g.len, 3);
    assert_eq!(g.key, "abc");
    assert_eq!(g.absolute_path, "/build/abc");
}
