use pdf_font_cache::cache::{dump_file_name, plan, plan_before_cache, Embedded, StandardCache, Step};
use pdf_font_cache::handle::{FontRc, Origin};
use pdf_font_cache::standard::{lookup, standard_font_file, standard_font_name, STANDARD_FONT_COUNT};
use std::collections::hash_map::DefaultHasher;
use std::hash::{Hash, Hasher};

fn hash_of(h: &FontRc<Vec<u8>>) -> u64 {
    let mut s = DefaultHasher::new();
    h.hash(&mut s);
    s.finish()
}

#[test]
fn lookup_finds_helvetica() {
    assert_eq!(lookup("Helvetica"), Some(11));
    assert_eq!(standard_font_file(11), "MyriadPro-Regular.otf");
}

#[test]
fn lookup_is_exact() {
    assert_eq!(lookup("Wingdings"), None);
    assert_eq!(lookup("helvetica"), None);
    assert_eq!(lookup("Helvetica "), None);
    assert_eq!(lookup(""), None);
    assert_eq!(lookup("Courier"), Some(0));
    assert_eq!(lookup("Arial-ItalicMT"), Some(19));
}

#[test]
fn every_table_name_finds_its_own_slot() {
    for i in 0..STANDARD_FONT_COUNT {
        assert_eq!(lookup(standard_font_name(i)), Some(i));
    }
    assert_eq!(standard_font_file(9), standard_font_file(10));
    assert_eq!(standard_font_file(15), "SY______.PFB");
}

#[test]
fn embedded_font_is_parsed_and_not_cached() {
    let cache: StandardCache<Vec<u8>> = StandardCache::new();
    assert!(matches!(plan(Some("Helvetica"), Embedded::Present, &cache), Step::ParseEmbedded));
    let h = FontRc::embedded(vec![1, 2, 3]);
    assert_eq!(h.font(), &vec![1, 2, 3]);
    assert_eq!(h.source(), Origin::Embedded);
    for i in 0..STANDARD_FONT_COUNT {
        assert!(cache.cached(i).is_none());
    }
    assert!(matches!(plan(Some("Helvetica"), Embedded::Absent, &cache), Step::Load { slot: 11 }));
}

#[test]
fn standard_font_loaded_once_and_shared() {
    let mut cache: StandardCache<Vec<u8>> = StandardCache::new();
    let slot = match plan(Some("Helvetica"), Embedded::Absent, &cache) {
        Step::Load { slot } => slot,
        _ => panic!("expected a load"),
    };
    assert_eq!(slot, 11);
    let first = cache.record(slot, Some(vec![7, 7])).unwrap();
    let second = match plan(Some("Helvetica"), Embedded::Absent, &cache) {
        Step::Cached(Some(h)) => h,
        _ => panic!("expected the cached handle"),
    };
    assert!(first == second);
    assert_eq!(first.source(), Origin::Standard(11));
    assert_eq!(hash_of(&first), hash_of(&second));
    assert_eq!(second.font(), &vec![7, 7]);
}

#[test]
fn racing_record_keeps_first_outcome() {
    let mut cache: StandardCache<Vec<u8>> = StandardCache::new();
    let first = cache.record(3, Some(vec![1])).unwrap();
    let again = cache.record(3, Some(vec![2])).unwrap();
    assert!(first == again);
    assert_eq!(again.font(), &vec![1]);
    let failed = cache.record(4, None);
    assert!(failed.is_none());
    assert!(cache.record(4, Some(vec![9])).is_none());
}

#[test]
fn missing_asset_is_cached_as_no_font() {
    let mut cache: StandardCache<Vec<u8>> = StandardCache::new();
    assert!(matches!(plan(Some("Helvetica"), Embedded::Absent, &cache), Step::Load { slot: 11 }));
    assert!(cache.record(11, None).is_none());
    assert!(matches!(plan(Some("Helvetica"), Embedded::Absent, &cache), Step::Cached(None)));
    assert!(matches!(plan(Some("Helvetica"), Embedded::Absent, &cache), Step::Cached(None)));
    assert!(matches!(cache.cached(11), Some(None)));
}

#[test]
fn corrupt_embedded_font_dump_name() {
    let cache: StandardCache<Vec<u8>> = StandardCache::new();
    assert!(matches!(plan(Some("Foo"), Embedded::Present, &cache), Step::ParseEmbedded));
    assert_eq!(dump_file_name(Some("Foo")), "font_Foo");
    assert_eq!(dump_file_name(None), "font_unnamed");
}

#[test]
fn unknown_name_is_no_font() {
    let cache: StandardCache<Vec<u8>> = StandardCache::new();
    assert!(matches!(plan(Some("Wingdings"), Embedded::Absent, &cache), Step::NoFont));
}

#[test]
fn no_name_no_data_is_no_font() {
    let cache: StandardCache<Vec<u8>> = StandardCache::new();
    assert!(matches!(plan(None, Embedded::Absent, &cache), Step::NoFont));
}

#[test]
fn failed_accessor_is_propagated() {
    let cache: StandardCache<Vec<u8>> = StandardCache::new();
    assert!(matches!(plan(Some("Helvetica"), Embedded::Failed, &cache), Step::Fail));
    assert!(matches!(plan(None, Embedded::Failed, &cache), Step::Fail));
}

#[test]
fn identical_embedded_fonts_get_distinct_handles() {
    let mut cache: StandardCache<Vec<u8>> = StandardCache::new();
    let a = FontRc::embedded(vec![5, 5, 5]);
    let b = FontRc::embedded(vec![5, 5, 5]);
    assert!(a != b);
    assert!(!a.same_handle(&b));
    let c = a.clone();
    assert!(a == c);
    assert!(c == a);
    assert_eq!(hash_of(&a), hash_of(&c));
    let d = cache.record(0, Some(vec![5, 5, 5])).unwrap();
    assert!(d != a && d != b);
}

#[test]
fn handles_of_two_caches_differ() {
    let mut first: StandardCache<Vec<u8>> = StandardCache::new();
    let mut second: StandardCache<Vec<u8>> = StandardCache::new();
    let a = first.record(11, Some(vec![1])).unwrap();
    let b = second.record(11, Some(vec![2])).unwrap();
    let c = second.record(11, Some(vec![1])).unwrap();
    assert!(a != b);
    assert!(a != c);
    assert!(b == c);
    assert_eq!(c.font(), &vec![2]);
    let e = first.record(12, Some(vec![1])).unwrap();
    assert!(a != e);
}

#[test]
fn steps_that_need_no_slots() {
    assert!(matches!(plan_before_cache::<Vec<u8>>(Some("Helvetica"), Embedded::Present), Some(Step::ParseEmbedded)));
    assert!(matches!(plan_before_cache::<Vec<u8>>(None, Embedded::Failed), Some(Step::Fail)));
    assert!(matches!(plan_before_cache::<Vec<u8>>(Some("Wingdings"), Embedded::Absent), Some(Step::NoFont)));
    assert!(matches!(plan_before_cache::<Vec<u8>>(None, Embedded::Absent), Some(Step::NoFont)));
    assert!(plan_before_cache::<Vec<u8>>(Some("Helvetica"), Embedded::Absent).is_none());
}

#[test]
fn hash_key_follows_the_allocation() {
    let a = FontRc::embedded(vec![1u8]);
    let b = FontRc::embedded(vec![1u8]);
    let c = a.clone();
    assert_eq!(a.hash_key(), c.hash_key());
    assert_ne!(a.hash_key(), b.hash_key());
    assert_ne!(hash_of(&a), hash_of(&b));
}
