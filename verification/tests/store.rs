use anime::{load_data, title_not_greater, StoreError, StoredRow, LOAD_LIMIT};

fn row(title: &str) -> StoredRow {
    StoredRow {
        title: Some(title.to_string()),
        synopsis: Some(format!("about {}", title)),
        start_date: Some("2020-01-01".to_string()),
        end_date: Some(String::new()),
        cover_image: Some(String::new()),
    }
}

fn titles(rows: &Vec<StoredRow>) -> Vec<String> {
    load_data(rows).unwrap().items.into_iter().map(|item| item.title).collect()
}

#[test]
fn load_data_of_no_rows_is_empty() {
    let list = load_data(&Vec::new()).unwrap();
    assert_eq!(list.length(), 0);
}

#[test]
fn load_data_orders_by_title() {
    let rows = vec![row("Trigun"), row("Akira"), row("Monster"), row("Berserk")];
    assert_eq!(titles(&rows), vec!["Akira", "Berserk", "Monster", "Trigun"]);
}

#[test]
fn load_data_orders_by_character_code() {
    let rows = vec![row("b"), row("a"), row("B"), row("ab"), row(""), row("a "), row("é"), row("Z"), row("10"), row("9")];
    assert_eq!(titles(&rows), vec!["", "10", "9", "B", "Z", "a", "a ", "ab", "b", "é"]);
}

#[test]
fn load_data_agrees_with_the_order_of_strings() {
    let mut names: Vec<String> = Vec::new();
    let mut seed: u32 = 12345;
    for _ in 0..300 {
        let mut name = String::new();
        for _ in 0..(seed % 5) {
            seed = seed.wrapping_mul(1103515245).wrapping_add(12345);
            name.push(['a', 'b', 'A', ' ', 'é', '日', '0'][(seed >> 16) as usize % 7]);
        }
        seed = seed.wrapping_mul(1103515245).wrapping_add(12345);
        names.push(name);
    }
    let rows: Vec<StoredRow> = names.iter().map(|n| row(n)).collect();
    let mut expected = names.clone();
    expected.sort();
    assert_eq!(titles(&rows), expected);
}

#[test]
fn load_data_keeps_rows_of_one_title_in_their_order() {
    let mut first = row("Same");
    first.synopsis = Some("first".to_string());
    let mut second = row("Same");
    second.synopsis = Some("second".to_string());
    let mut third = row("Same");
    third.synopsis = Some("third".to_string());
    let list = load_data(&vec![first, row("Zed"), second, row("Abe"), third]).unwrap();
    let seen: Vec<(&str, &str)> =
        list.items.iter().map(|i| (i.title.as_str(), i.synopsis.as_str())).collect();
    assert_eq!(
        seen,
        vec![
            ("Abe", "about Abe"),
            ("Same", "first"),
            ("Same", "second"),
            ("Same", "third"),
            ("Zed", "about Zed")
        ]
    );
}

#[test]
fn load_data_returns_no_more_than_the_limit() {
    assert_eq!(LOAD_LIMIT, 1000);
    let rows: Vec<StoredRow> = (0..1500).rev().map(|n| row(&format!("title {:05}", n))).collect();
    let list = load_data(&rows).unwrap();
    assert_eq!(list.length(), 1000);
    assert_eq!(list.items[0].title, "title 00000");
    assert_eq!(list.items[999].title, "title 00999");
    for pair in list.items.windows(2) {
        assert!(pair[0].title <= pair[1].title);
    }
}

#[test]
fn load_data_returns_all_rows_up_to_the_limit() {
    let rows: Vec<StoredRow> = (0..1000).map(|n| row(&format!("{}", n))).collect();
    assert_eq!(load_data(&rows).unwrap().length(), 1000);
    let rows: Vec<StoredRow> = (0..1001).map(|n| row(&format!("{}", n))).collect();
    assert_eq!(load_data(&rows).unwrap().length(), 1000);
    let rows: Vec<StoredRow> = (0..999).map(|n| row(&format!("{}", n))).collect();
    assert_eq!(load_data(&rows).unwrap().length(), 999);
}

#[test]
fn load_data_strips_quotes_and_orders_by_what_is_left() {
    let rows = vec![row("\"Zoo\""), row("Yak"), row("\"Ape")];
    let list = load_data(&rows).unwrap();
    let seen: Vec<&str> = list.items.iter().map(|i| i.title.as_str()).collect();
    assert_eq!(seen, vec!["Ape", "Yak", "Zoo"]);
    assert!(list.items.iter().all(|i| !i.title.contains('"')));
}

#[test]
fn load_data_keeps_the_columns_of_a_row() {
    let rows = vec![StoredRow {
        title: Some("T".to_string()),
        synopsis: Some("S".to_string()),
        start_date: Some("2019-10-01".to_string()),
        end_date: Some("2020-03-31".to_string()),
        cover_image: Some("c.png".to_string()),
    }];
    let list = load_data(&rows).unwrap();
    assert_eq!(list.items[0].title, "T");
    assert_eq!(list.items[0].synopsis, "S");
    assert_eq!(list.items[0].start_date, "2019-10-01");
    assert_eq!(list.items[0].end_date, "2020-03-31");
    assert_eq!(list.items[0].cover_image, "c.png");
    assert_eq!(list.items[0].display_date(), "(2019/10/01 - 2020/03/31)");
}

#[test]
fn load_data_fails_on_a_row_with_an_empty_column() {
    let mut bad = row("Bad");
    bad.title = None;
    assert_eq!(load_data(&vec![row("A"), bad, row("B")]).unwrap_err(), StoreError::Read);
    let mut bad = row("Bad");
    bad.synopsis = None;
    assert_eq!(load_data(&vec![bad]).unwrap_err(), StoreError::Read);
    let mut bad = row("Bad");
    bad.start_date = None;
    assert_eq!(load_data(&vec![bad]).unwrap_err(), StoreError::Read);
    let mut bad = row("Bad");
    bad.end_date = None;
    assert_eq!(load_data(&vec![bad]).unwrap_err(), StoreError::Read);
    let mut bad = row("Bad");
    bad.cover_image = None;
    assert_eq!(load_data(&vec![row("A"), row("B"), bad]).unwrap_err(), StoreError::Read);
}

#[test]
fn load_data_twice_gives_the_same_list() {
    let rows = vec![row("c"), row("a"), row("\"b\""), row("a")];
    let first = load_data(&rows).unwrap();
    let second = load_data(&rows).unwrap();
    assert_eq!(first.length(), second.length());
    for (x, y) in first.items.iter().zip(second.items.iter()) {
        assert_eq!(x.title, y.title);
        assert_eq!(x.synopsis, y.synopsis);
        assert_eq!(x.start_date, y.start_date);
        assert_eq!(x.end_date, y.end_date);
        assert_eq!(x.cover_image, y.cover_image);
    }
}

#[test]
fn load_data_of_what_was_loaded_changes_nothing() {
    let rows = vec![row("c"), row("a"), row("b"), row("a")];
    let first = load_data(&rows).unwrap();
    let again: Vec<StoredRow> = first
        .items
        .iter()
        .map(|i| StoredRow {
            title: Some(i.title.clone()),
            synopsis: Some(i.synopsis.clone()),
            start_date: Some(i.start_date.clone()),
            end_date: Some(i.end_date.clone()),
            cover_image: Some(i.cover_image.clone()),
        })
        .collect();
    let second = load_data(&again).unwrap();
    let a: Vec<&str> = first.items.iter().map(|i| i.title.as_str()).collect();
    let b: Vec<&str> = second.items.iter().map(|i| i.title.as_str()).collect();
    assert_eq!(a, b);
}

#[test]
fn title_not_greater_follows_the_characters() {
    assert!(title_not_greater("", ""));
    assert!(title_not_greater("", "a"));
    assert!(!title_not_greater("a", ""));
    assert!(title_not_greater("a", "a"));
    assert!(title_not_greater("a", "b"));
    assert!(!title_not_greater("b", "a"));
    assert!(title_not_greater("ab", "abc"));
    assert!(!title_not_greater("abc", "ab"));
    assert!(title_not_greater("Z", "a"));
    assert!(!title_not_greater("a", "Z"));
    assert!(title_not_greater("abd", "abe"));
    assert!(title_not_greater("z", "é"));
    assert!(title_not_greater("é", "日"));
}
