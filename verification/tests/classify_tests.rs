use gbhwdb::classify::{cache_class_of_key, upload_metadata, CacheClass};
use gbhwdb::error::SyncError;
use gbhwdb::local::LocalFile;

const MD5_EMPTY: u128 = 0xd41d8cd98f00b204e9800998ecf8427e;

fn file(key: &str) -> LocalFile {
    LocalFile {
        key: key.to_string(),
        absolute_path: format!("/build/{}", key),
        len: 0,
        md5: MD5_EMPTY,
    }
}

#[test]
fn cache_tiers_by_prefix_and_extension() {
    assert_eq!(cache_class_of_key("static/photo.jpg"), CacheClass::Long);
    assert_eq!(cache_class_of_key("static/style.css"), CacheClass::Short);
    assert_eq!(cache_class_of_key("consoles/dmg/index.html"), CacheClass::Medium);
    assert_eq!(cache_class_of_key("cartridges/list.html"), CacheClass::Medium);
    assert_eq!(cache_class_of_key("index.html"), CacheClass::Short);
    // The prefix must be a path prefix, not a substring.
    assert_eq!(cache_class_of_key("misc/static/x.jpg"), CacheClass::Short);
    // The extension matters only inside the static namespace.
    assert_eq!(cache_class_of_key("photo.jpg"), CacheClass::Short);
}

#[test]
fn cache_control_header_values() {
    assert_eq!(file("index.html").cache_control(), "max-age=3600,public");
    assert_eq!(file("consoles/a").cache_control(), "max-age=86400,public");
    assert_eq!(file("cartridges/a").cache_control(), "max-age=86400,public");
    assert_eq!(file("static/a.jpg").cache_control(), "max-age=1209600,public");
    assert_eq!(file("static/a.css").cache_control(), "max-age=3600,public");
}

#[test]
fn certain_classification_resolves_metadata() {
    let f = file("docs/readme.txt");
    let meta = upload_metadata(&f, "text/plain".to_string(), false).expect("certain");
    assert_eq!(meta.key, "docs/readme.txt");
    assert_eq!(meta.content_type, "text/plain");
    assert_eq!(meta.cache_control, "max-age=3600,public");
    // Base64 of the 16 digest bytes, for the store's integrity check.
    assert_eq!(meta.content_md5, "1B2M2Y8AsgTpgAmY7PhCfg==");
}

#[test]
fn classify_runs_against_loaded_database() {
    // What the sniffer answers depends on the mime database this machine
    // holds, so only the outcome-independent guarantees are checked.
    let db = xdg_mime::SharedMimeInfo::new();
    let f = file("static/x.css");
    let data = b"body { color: #fff }".to_vec();
    match gbhwdb::classify::classify(&db, &f, &data) {
        Ok(m) => {
            assert_eq!(m.key, "static/x.css");
            assert_eq!(m.cache_control, "max-age=3600,public");
            assert!(!m.content_type.is_empty());
        }
        Err(e) => assert_eq!(
            e,
            SyncError::ClassificationUncertain {
                key: "static/x.css".to_string()
            }
        ),
    }
}

#[test]
fn uncertain_classification_is_fatal_for_the_key() {
    let f = file("mystery.bin");
    let err = upload_metadata(&f, "application/octet-stream".to_string(), true)
        .expect_err("uncertain must fail");
    assert_eq!(
        err,
        SyncError::ClassificationUncertain {
            key: "mystery.bin".to_string()
        }
    );
}
