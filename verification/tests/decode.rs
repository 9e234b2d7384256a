use anime::{decode_page, AnimeData, AnimeListResponse, Attributes, CoverImages, FetchError, Links, Titles};
use serde_json::Value;

const LINKS: &str = r#""links":{"first":"https://host/anime?page%5Blimit%5D=10&page%5Boffset%5D=0","next":"https://host/anime?page%5Blimit%5D=10&page%5Boffset%5D=10","last":"https://host/anime?page%5Blimit%5D=10&page%5Boffset%5D=100"}"#;

fn entry(id: &str, title: &str, rest: &str) -> String {
    format!(
        r#"{{"id":"{}","type":"anime","attributes":{{"slug":"slug-{}","titles":{{"en":"E","en_jp":"EJ"}},"canonicalTitle":"{}"{}}}}}"#,
        id, id, title, rest
    )
}

fn page(entries: &[String]) -> String {
    format!(r#"{{"data":[{}],{},"meta":{{"count":3}}}}"#, entries.join(","), LINKS)
}

fn value(text: &str) -> Value {
    serde_json::from_str(text).unwrap()
}

#[test]
fn decode_page_reads_entries_and_links() {
    let full = r#","synopsis":"A story.","coverImage":{"tiny":"t.png","original":"o.png"},"averageRating":"82.5","startDate":"1998-04-03","endDate":"1999-04-24","episodeCount":26,"status":"finished""#;
    let body = page(&[entry("1", "Cowboy Bebop", full), entry("2", "Trigun", "")]);
    let got = decode_page(&body).unwrap();
    assert_eq!(got.data.len(), 2);
    let first = &got.data[0];
    assert_eq!(first.id, "1");
    assert_eq!(first.attributes.slug, "slug-1");
    assert_eq!(first.attributes.canonical_title, "Cowboy Bebop");
    assert_eq!(first.attributes.synopsis.as_deref(), Some("A story."));
    assert_eq!(first.attributes.titles.en.as_deref(), Some("E"));
    assert_eq!(first.attributes.titles.en_jp.as_deref(), Some("EJ"));
    assert_eq!(first.attributes.titles.ja_jp, None);
    assert_eq!(
        first.attributes.cover_image.as_ref().unwrap().original.as_deref(),
        Some("o.png")
    );
    assert_eq!(first.attributes.average_rating.as_deref(), Some("82.5"));
    assert_eq!(first.attributes.start_date.as_deref(), Some("1998-04-03"));
    assert_eq!(first.attributes.end_date.as_deref(), Some("1999-04-24"));
    assert_eq!(first.attributes.episode_count, Some(26));
    assert_eq!(first.attributes.status.as_deref(), Some("finished"));
    let second = &got.data[1];
    assert_eq!(second.id, "2");
    assert_eq!(second.attributes.canonical_title, "Trigun");
    assert_eq!(second.attributes.synopsis, None);
    assert!(second.attributes.cover_image.is_none());
    assert_eq!(second.attributes.episode_count, None);
    assert_eq!(
        got.links.first,
        "https://host/anime?page%5Blimit%5D=10&page%5Boffset%5D=0"
    );
    assert_eq!(
        got.links.next,
        "https://host/anime?page%5Blimit%5D=10&page%5Boffset%5D=10"
    );
    assert_eq!(
        got.links.last,
        "https://host/anime?page%5Blimit%5D=10&page%5Boffset%5D=100"
    );
}

#[test]
fn decode_page_accepts_a_page_without_entries() {
    let got = decode_page(&page(&[])).unwrap();
    assert!(got.data.is_empty());
}

#[test]
fn decode_page_takes_null_for_a_missing_optional() {
    let rest = r#","synopsis":null,"coverImage":null,"startDate":null,"endDate":null,"episodeCount":null,"status":null,"averageRating":null"#;
    let got = decode_page(&page(&[entry("7", "T", rest)])).unwrap();
    let a = &got.data[0].attributes;
    assert_eq!(a.synopsis, None);
    assert!(a.cover_image.is_none());
    assert_eq!(a.start_date, None);
    assert_eq!(a.end_date, None);
    assert_eq!(a.episode_count, None);
    assert_eq!(a.status, None);
    assert_eq!(a.average_rating, None);
}

#[test]
fn decode_page_rejects_what_is_no_json() {
    assert_eq!(decode_page("").unwrap_err(), FetchError::Decode);
    assert_eq!(decode_page("<html></html>").unwrap_err(), FetchError::Decode);
    assert_eq!(decode_page("{\"data\":[").unwrap_err(), FetchError::Decode);
    let twice = format!("{} {}", page(&[]), page(&[]));
    assert_eq!(decode_page(&twice).unwrap_err(), FetchError::Decode);
}

#[test]
fn decode_page_rejects_a_document_that_is_no_object() {
    assert_eq!(decode_page("[]").unwrap_err(), FetchError::Decode);
    assert_eq!(decode_page("null").unwrap_err(), FetchError::Decode);
    assert_eq!(decode_page("\"data\"").unwrap_err(), FetchError::Decode);
    assert_eq!(decode_page("12").unwrap_err(), FetchError::Decode);
}

#[test]
fn decode_page_rejects_a_missing_canonical_title() {
    let body = format!(
        r#"{{"data":[{{"id":"1","attributes":{{"slug":"s","titles":{{}}}}}}],{}}}"#,
        LINKS
    );
    assert_eq!(decode_page(&body).unwrap_err(), FetchError::Decode);
}

#[test]
fn decode_page_rejects_missing_links() {
    let body = format!(r#"{{"data":[{}]}}"#, entry("1", "T", ""));
    assert_eq!(decode_page(&body).unwrap_err(), FetchError::Decode);
    let null_links = format!(r#"{{"data":[{}],"links":null}}"#, entry("1", "T", ""));
    assert_eq!(decode_page(&null_links).unwrap_err(), FetchError::Decode);
}

#[test]
fn decode_page_rejects_a_missing_link() {
    let body = r#"{"data":[],"links":{"first":"a","last":"c"}}"#;
    assert_eq!(decode_page(body).unwrap_err(), FetchError::Decode);
    let body = r#"{"data":[],"links":{"first":"a","next":"b"}}"#;
    assert_eq!(decode_page(body).unwrap_err(), FetchError::Decode);
    let body = r#"{"data":[],"links":{"next":"b","last":"c"}}"#;
    assert_eq!(decode_page(body).unwrap_err(), FetchError::Decode);
    let body = r#"{"data":[],"links":{"first":"a","next":"b","last":"c"}}"#;
    assert!(decode_page(body).is_ok());
}

#[test]
fn decode_page_rejects_missing_data() {
    let body = format!(r#"{{{}}}"#, LINKS);
    assert_eq!(decode_page(&body).unwrap_err(), FetchError::Decode);
    let body = format!(r#"{{"data":{{}},{}}}"#, LINKS);
    assert_eq!(decode_page(&body).unwrap_err(), FetchError::Decode);
}

#[test]
fn decode_page_rejects_a_page_with_one_bad_entry() {
    let bad = r#"{"id":"3","attributes":{"slug":"s","titles":{},"canonicalTitle":17}}"#.to_string();
    let body = page(&[entry("1", "A", ""), entry("2", "B", ""), bad]);
    assert_eq!(decode_page(&body).unwrap_err(), FetchError::Decode);
}

#[test]
fn decode_page_rejects_members_of_the_wrong_kind() {
    for rest in [
        r#","synopsis":5"#,
        r#","coverImage":"o.png""#,
        r#","coverImage":{"original":5}"#,
        r#","startDate":20200101"#,
        r#","endDate":false"#,
        r#","episodeCount":"12""#,
        r#","episodeCount":12.5"#,
        r#","episodeCount":9223372036854775808"#,
        r#","status":[]"#,
        r#","averageRating":82.5"#,
    ] {
        let body = page(&[entry("1", "T", rest)]);
        assert_eq!(decode_page(&body).unwrap_err(), FetchError::Decode, "{}", rest);
    }
}

#[test]
fn decode_page_reads_whole_numbers_of_either_sign() {
    let body = page(&[entry("1", "T", r#","episodeCount":-3"#)]);
    assert_eq!(decode_page(&body).unwrap().data[0].attributes.episode_count, Some(-3));
    let body = page(&[entry("1", "T", r#","episodeCount":9223372036854775807"#)]);
    assert_eq!(
        decode_page(&body).unwrap().data[0].attributes.episode_count,
        Some(9223372036854775807)
    );
}

#[test]
fn links_from_json_reads_the_three_links() {
    let got = Links::from_json(&value(r#"{"first":"a","next":"b","last":"c","prev":"z"}"#)).unwrap();
    assert_eq!(got.first, "a");
    assert_eq!(got.next, "b");
    assert_eq!(got.last, "c");
}

#[test]
fn links_from_json_rejects_other_shapes() {
    assert_eq!(Links::from_json(&value(r#"["a","b","c"]"#)).unwrap_err(), FetchError::Decode);
    assert_eq!(
        Links::from_json(&value(r#"{"first":"a","next":null,"last":"c"}"#)).unwrap_err(),
        FetchError::Decode
    );
    assert_eq!(
        Links::from_json(&value(r#"{"first":"a","next":1,"last":"c"}"#)).unwrap_err(),
        FetchError::Decode
    );
}

#[test]
fn titles_from_json_reads_what_is_given() {
    let got = Titles::from_json(&value(r#"{"ja_jp":"カウボーイビバップ","en":null}"#)).unwrap();
    assert_eq!(got.en, None);
    assert_eq!(got.en_jp, None);
    assert_eq!(got.ja_jp.as_deref(), Some("カウボーイビバップ"));
    let empty = Titles::from_json(&value("{}")).unwrap();
    assert!(empty.en.is_none() && empty.en_jp.is_none() && empty.ja_jp.is_none());
}

#[test]
fn titles_from_json_rejects_what_is_no_object() {
    assert_eq!(Titles::from_json(&value("\"en\"")).unwrap_err(), FetchError::Decode);
    assert_eq!(Titles::from_json(&value("null")).unwrap_err(), FetchError::Decode);
    assert_eq!(Titles::from_json(&value("[]")).unwrap_err(), FetchError::Decode);
    assert_eq!(Titles::from_json(&value(r#"{"en":3}"#)).unwrap_err(), FetchError::Decode);
}

#[test]
fn cover_images_from_json_reads_the_original() {
    let got = CoverImages::from_json(&value(r#"{"original":"o.png","large":"l.png"}"#)).unwrap();
    assert_eq!(got.original.as_deref(), Some("o.png"));
    assert_eq!(CoverImages::from_json(&value("{}")).unwrap().original, None);
    assert_eq!(CoverImages::from_json(&value("7")).unwrap_err(), FetchError::Decode);
}

#[test]
fn attributes_from_json_needs_slug_titles_and_canonical_title() {
    let ok = r#"{"slug":"s","titles":{},"canonicalTitle":"T"}"#;
    let got = Attributes::from_json(&value(ok)).unwrap();
    assert_eq!(got.slug, "s");
    assert_eq!(got.canonical_title, "T");
    for bad in [
        r#"{"titles":{},"canonicalTitle":"T"}"#,
        r#"{"slug":"s","canonicalTitle":"T"}"#,
        r#"{"slug":"s","titles":{}}"#,
        r#"{"slug":"s","titles":null,"canonicalTitle":"T"}"#,
        r#"{"slug":null,"titles":{},"canonicalTitle":"T"}"#,
        r#"{"slug":"s","titles":{},"canonical_title":"T"}"#,
    ] {
        assert_eq!(Attributes::from_json(&value(bad)).unwrap_err(), FetchError::Decode, "{}", bad);
    }
}

#[test]
fn anime_data_from_json_needs_id_and_attributes() {
    let ok = r#"{"id":"9","attributes":{"slug":"s","titles":{},"canonicalTitle":"T"}}"#;
    assert_eq!(AnimeData::from_json(&value(ok)).unwrap().id, "9");
    let no_id = r#"{"attributes":{"slug":"s","titles":{},"canonicalTitle":"T"}}"#;
    assert_eq!(AnimeData::from_json(&value(no_id)).unwrap_err(), FetchError::Decode);
    let numeric_id = r#"{"id":9,"attributes":{"slug":"s","titles":{},"canonicalTitle":"T"}}"#;
    assert_eq!(AnimeData::from_json(&value(numeric_id)).unwrap_err(), FetchError::Decode);
    assert_eq!(AnimeData::from_json(&value(r#"{"id":"9"}"#)).unwrap_err(), FetchError::Decode);
}

#[test]
fn response_from_json_agrees_with_decode_page() {
    let body = page(&[entry("1", "A", ""), entry("2", "B", "")]);
    let from_value = AnimeListResponse::from_json(&value(&body)).unwrap();
    let from_text = decode_page(&body).unwrap();
    assert_eq!(from_value.data.len(), from_text.data.len());
    assert_eq!(from_value.data[1].attributes.canonical_title, "B");
    assert_eq!(from_value.links.next, from_text.links.next);
}

#[test]
fn records_default_what_is_missing_to_empty() {
    let body = page(&[entry("1", r#"Only \"Title\""#, "")]);
    let records = decode_page(&body).unwrap().records();
    assert_eq!(records.len(), 1);
    assert_eq!(records[0].title, "Only Title");
    assert_eq!(records[0].synopsis, "");
    assert_eq!(records[0].start_date, "");
    assert_eq!(records[0].end_date, "");
    assert_eq!(records[0].cover_image, "");
}

#[test]
fn records_keep_the_order_and_the_fields_of_the_page() {
    let full = r#","synopsis":"S","coverImage":{"original":"o.png"},"startDate":"2020-01-01","endDate":"2020-03-01""#;
    let no_original = r#","coverImage":{"tiny":"t.png"}"#;
    let body = page(&[entry("1", "Zeta", full), entry("2", "Alpha", no_original)]);
    let response = decode_page(&body).unwrap();
    let records = response.records();
    assert_eq!(records.len(), 2);
    assert_eq!(records[0].title, "Zeta");
    assert_eq!(records[0].synopsis, "S");
    assert_eq!(records[0].start_date, "2020-01-01");
    assert_eq!(records[0].end_date, "2020-03-01");
    assert_eq!(records[0].cover_image, "o.png");
    assert_eq!(records[1].title, "Alpha");
    assert_eq!(records[1].cover_image, "");
    let again = response.data[0].to_item();
    assert_eq!(again.title, "Zeta");
    assert_eq!(again.cover_image, "o.png");
}

#[test]
fn records_of_titles_with_quotes_hold_no_quote() {
    let body = page(&[
        entry("1", r#"\"Quoted\""#, ""),
        entry("2", r#"In \"the\" middle"#, ""),
        entry("3", r#"\"\""#, ""),
    ]);
    let records = decode_page(&body).unwrap().records();
    assert_eq!(records[0].title, "Quoted");
    assert_eq!(records[1].title, "In the middle");
    assert_eq!(records[2].title, "");
    assert!(records.iter().all(|r| !r.title.contains('"')));
}
