use stump_core::comic_info::{extract_tag, find_sub, process_comic_info};

#[test]
fn empty_buffer_parses_to_nothing() {
    assert_eq!(process_comic_info(String::new()), None);
}

#[test]
fn non_comic_info_payload_parses_to_nothing() {
    assert_eq!(process_comic_info("<foo>bar</foo>".to_string()), None);
}

#[test]
fn full_document_parses_fields() {
    let xml = "<?xml version=\"1.0\"?><ComicInfo><Series>Test Series</Series>\
               <Number>4</Number><Volume>2</Volume><Summary>A fine comic.</Summary>\
               <Publisher>Test House</Publisher><Genre>Action</Genre>\
               <PageCount>10</PageCount></ComicInfo>";
    let m = process_comic_info(xml.to_string()).expect("should parse");
    assert_eq!(m.series.as_deref(), Some("Test Series"));
    assert_eq!(m.number, Some(4));
    assert_eq!(m.volume, Some(2));
    assert_eq!(m.summary.as_deref(), Some("A fine comic."));
    assert_eq!(m.publisher.as_deref(), Some("Test House"));
    assert_eq!(m.genre.as_deref(), Some("Action"));
    assert_eq!(m.page_count, Some(10));
}

#[test]
fn missing_elements_parse_as_absent() {
    let xml = "<ComicInfo><Series>Solo</Series></ComicInfo>";
    let m = process_comic_info(xml.to_string()).expect("should parse");
    assert_eq!(m.series.as_deref(), Some("Solo"));
    assert_eq!(m.number, None);
    assert_eq!(m.volume, None);
    assert_eq!(m.summary, None);
    assert_eq!(m.page_count, None);
}

#[test]
fn non_decimal_number_parses_as_absent() {
    let xml = "<ComicInfo><Number>four</Number></ComicInfo>";
    let m = process_comic_info(xml.to_string()).expect("should parse");
    assert_eq!(m.number, None);
}

#[test]
fn find_sub_first_occurrence() {
    assert_eq!(find_sub("hello world", "o", 0), Some(4));
    assert_eq!(find_sub("hello world", "o", 5), Some(7));
    assert_eq!(find_sub("hello world", "xyz", 0), None);
    assert_eq!(find_sub("hello", "", 2), Some(2));
}

#[test]
fn extract_tag_takes_first_element() {
    assert_eq!(
        extract_tag("<a>x</a><a>y</a>", "<a>", "</a>"),
        Some("x".to_string())
    );
    assert_eq!(extract_tag("<a>x", "<a>", "</a>"), None);
    assert_eq!(extract_tag("x", "<a>", "</a>"), None);
}
