use goose_agent_core::order::{insert_distinct, sort_texts};
use goose_agent_core::text::{
    join_non_blank_paragraphs, join_texts, str_is_blank, strs_contain, texts_contain,
    trim_white_space,
};

fn strings(items: &[&str]) -> Vec<String> {
    items.iter().map(|s| s.to_string()).collect()
}

#[test]
fn trimming_drops_unicode_white_space_at_both_ends() {
    assert_eq!(trim_white_space("  \t hello world \n"), "hello world");
    assert_eq!(trim_white_space("\u{00a0}\u{2003}x\u{3000}"), "x");
    assert_eq!(trim_white_space(" \n "), "");
    assert!(str_is_blank(" \u{2028}\t"));
    assert!(!str_is_blank(" a "));
}

#[test]
fn joining_puts_the_separator_between_neighbours() {
    assert_eq!(join_texts(&strings(&["a", "b", "c"]), ", "), "a, b, c");
    assert_eq!(join_texts(&strings(&["only"]), ", "), "only");
    assert_eq!(join_texts(&Vec::new(), ", "), "");
    assert_eq!(
        join_non_blank_paragraphs(&strings(&["one", "  ", "two"])),
        "one\n\ntwo"
    );
}

#[test]
fn membership_compares_whole_texts() {
    let texts = strings(&["read", "write"]);
    assert!(texts_contain(&texts, "write"));
    assert!(!texts_contain(&texts, "writ"));
    assert!(strs_contain(&["a", "b"], "b"));
    assert!(!strs_contain(&[], "b"));
}

#[test]
fn sorting_orders_by_code_point_and_keeps_repeats() {
    assert_eq!(
        sort_texts(strings(&["b", "B", "a", "b", "ab"])),
        strings(&["B", "a", "ab", "b", "b"])
    );
}

#[test]
fn distinct_insertion_keeps_a_sorted_set() {
    let mut v = Vec::new();
    for x in ["m", "c", "x", "c", "a", "m"] {
        insert_distinct(&mut v, x.to_string());
    }
    assert_eq!(v, strings(&["a", "c", "m", "x"]));
}
