use jukebox::packlistreader::{
    count_records, field_bounds, find_record, parse_record, MemPackList, PackCache, PackListReader,
};

fn lines(text: &[&str]) -> Vec<String> {
    text.iter().map(|s| s.to_string()).collect()
}

#[test]
fn two_record_playlist() {
    let mut list = MemPackList::new(lines(&["Song A, a.mp3", "Song B, b.mp3, Album X"]));
    assert_eq!(list.len(), 2);
    assert_eq!(list.get(0).unwrap().name, "Song A");
    assert_eq!(list.get(0).unwrap().source, "a.mp3");
    let b = list.get(1).unwrap();
    assert_eq!(b.album, Some("Album X".to_string()));
    assert_eq!(b.author, None);
    assert_eq!(b.index, 1);
}

#[test]
fn field_bounds_splits_on_commas() {
    assert_eq!(field_bounds("ab,c,,d"), vec![(0, 2), (3, 4), (5, 5), (6, 7)]);
    assert_eq!(field_bounds(""), vec![(0, 0)]);
    assert_eq!(field_bounds("x"), vec![(0, 1)]);
}

#[test]
fn parse_record_trims_fields() {
    let r = parse_record("  Name  ,\tsrc.ogg , Alb ,  Auth ", 7).unwrap();
    assert_eq!(r.name, "Name");
    assert_eq!(r.source, "src.ogg");
    assert_eq!(r.album, Some("Alb".to_string()));
    assert_eq!(r.author, Some("Auth".to_string()));
    assert_eq!(r.index, 7);
}

#[test]
fn parse_record_field_count_bounds() {
    assert!(parse_record("only one", 0).is_none());
    assert!(parse_record("a,b,c,d,e", 0).is_none());
    assert!(parse_record("a,b", 0).is_some());
    assert!(parse_record("a,b,c,d", 0).is_some());
}

#[test]
fn empty_lines_are_not_records() {
    let ls = lines(&["", "One, 1.mp3", "", "", "Two, 2.mp3", ""]);
    assert_eq!(count_records(&ls), 2);
    assert_eq!(find_record(&ls, 0).unwrap().name, "One");
    assert_eq!(find_record(&ls, 1).unwrap().name, "Two");
    assert!(find_record(&ls, 2).is_none());
}

#[test]
fn malformed_line_is_a_miss() {
    let ls = lines(&["Good, g.mp3", "bad line", "Also, a.mp3"]);
    assert_eq!(count_records(&ls), 3);
    assert!(find_record(&ls, 1).is_none());
    assert_eq!(find_record(&ls, 2).unwrap().name, "Also");
}

#[test]
fn repeated_get_is_a_cache_hit() {
    let ls = lines(&["A, a.mp3", "B, b.mp3"]);
    let mut cache = PackCache::new(&ls);
    cache.load(1, &ls);
    assert!(cache.is_cached(1));
    let first = cache.cache_ref().unwrap().clone();
    // a hit does not look at the lines again
    cache.load(1, &Vec::new());
    let second = cache.cache_ref().unwrap();
    assert_eq!(first.name, second.name);
    assert_eq!(first.source, second.source);
    assert_eq!(second.index, 1);
}

#[test]
fn get_beyond_len_leaves_cache_empty() {
    let mut list = MemPackList::new(lines(&["A, a.mp3", "B, b.mp3"]));
    assert!(list.get(0).is_some());
    assert!(list.get(2).is_none());
    assert!(list.cache_ref().is_none());
    assert!(list.get(99).is_none());
}

#[test]
fn miss_replaces_cached_record() {
    let ls = lines(&["A, a.mp3", "B, b.mp3"]);
    let mut cache = PackCache::new(&ls);
    assert_eq!(cache.len(), 2);
    assert!(!cache.is_cached(0));
    cache.load(0, &ls);
    assert_eq!(cache.cache_ref().unwrap().name, "A");
    cache.load(1, &ls);
    assert!(!cache.is_cached(0));
    assert_eq!(cache.cache_ref().unwrap().name, "B");
}

#[test]
fn length_fixed_at_construction() {
    let ls = lines(&["A, a.mp3"]);
    let mut cache = PackCache::new(&ls);
    let more = lines(&["A, a.mp3", "B, b.mp3", "C, c.mp3"]);
    cache.load(2, &more);
    assert_eq!(cache.len(), 1);
    assert_eq!(cache.cache_ref().unwrap().name, "C");
}

#[test]
fn malformed_line_misses_only_its_index_through_get() {
    let mut list = MemPackList::new(lines(&["Bad line", "Song B, b.mp3, Album X, Artist Y"]));
    assert!(list.get(0).is_none());
    assert!(list.cache_ref().is_none());
    let b = list.get(1).unwrap().clone();
    assert_eq!(b.name, "Song B");
    assert_eq!(b.source, "b.mp3");
    assert_eq!(b.album, Some("Album X".to_string()));
    assert_eq!(b.author, Some("Artist Y".to_string()));
    assert_eq!(b.index, 1);
}

#[test]
fn get_twice_returns_same_record() {
    let mut list = MemPackList::new(lines(&["A, a.mp3, Al", "B, b.mp3"]));
    let first = list.get(0).unwrap().clone();
    let second = list.get(0).unwrap().clone();
    assert_eq!(first.name, second.name);
    assert_eq!(first.source, second.source);
    assert_eq!(first.album, second.album);
    assert_eq!(first.author, second.author);
    assert_eq!(first.index, second.index);
}

#[test]
fn trim_removes_unicode_white_space() {
    let r = parse_record("\u{3000}Name\u{a0}, \u{2009}x.mp3\n", 0).unwrap();
    assert_eq!(r.name, "Name");
    assert_eq!(r.source, "x.mp3");
}
