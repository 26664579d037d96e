use apa::grapheme::{
    clusters_of, delete_before, insert, inserts_apart, length_in_clusters, same_clusters,
};

#[test]
fn length_counts_clusters_not_bytes() {
    assert_eq!(length_in_clusters(""), 0);
    assert_eq!(length_in_clusters("abc"), 3);
    assert_eq!(length_in_clusters("é"), 1);
    assert_eq!(length_in_clusters("e\u{301}"), 1);
    assert_eq!(length_in_clusters("a\u{310}e\u{301}o\u{308}\u{332}"), 3);
    assert_eq!(length_in_clusters("a\r\nb🇷🇺🇸🇹"), 5);
}

#[test]
fn insert_places_the_cluster_at_the_cursor() {
    assert_eq!(insert("", 0, "a"), ("a".to_string(), 1));
    assert_eq!(insert("ac", 1, "b"), ("abc".to_string(), 2));
    assert_eq!(insert("ab", 2, "c"), ("abc".to_string(), 3));
    assert_eq!(insert("bc", 0, "a"), ("abc".to_string(), 1));
}

#[test]
fn insert_counts_positions_in_clusters() {
    // Two clusters of two code points each; position 1 lies between them.
    assert_eq!(insert("e\u{301}o\u{308}", 1, "x"), ("e\u{301}xo\u{308}".to_string(), 2));
}

#[test]
fn insert_clamps_a_cursor_behind_the_text() {
    assert_eq!(insert("ab", 7, "c"), ("abc".to_string(), 3));
    assert_eq!(insert("", usize::MAX, "c"), ("c".to_string(), 1));
}

#[test]
fn insert_leaves_line_feeds_out() {
    assert_eq!(insert("ab", 1, "\n"), ("ab".to_string(), 1));
    assert_eq!(insert("ab", 9, "\n"), ("ab".to_string(), 2));
    assert_eq!(insert("ab", 1, "\r\n"), ("ab".to_string(), 1));
    assert_eq!(insert("ab", 1, "x\ny"), ("ab".to_string(), 1));
}

#[test]
fn delete_before_removes_one_cluster() {
    assert_eq!(delete_before("abc", 3), ("ab".to_string(), 2));
    assert_eq!(delete_before("abc", 1), ("bc".to_string(), 0));
    assert_eq!(delete_before("abc", 2), ("ac".to_string(), 1));
}

#[test]
fn delete_before_at_the_start_does_nothing() {
    assert_eq!(delete_before("abc", 0), ("abc".to_string(), 0));
    assert_eq!(delete_before("", 0), ("".to_string(), 0));
    assert_eq!(delete_before("", 4), ("".to_string(), 0));
}

#[test]
fn delete_before_clamps_a_cursor_behind_the_text() {
    assert_eq!(delete_before("abc", 10), ("ab".to_string(), 2));
}

#[test]
fn insert_then_delete_restores_the_text() {
    let texts = ["", "a", "abc", "e\u{301}o\u{308}", "añb"];
    let clusters = ["x", "é", "e\u{301}", "🇷🇺"];
    for text in texts {
        for p in 0..=length_in_clusters(text) {
            for cluster in clusters {
                let (longer, cursor) = insert(text, p, cluster);
                assert_eq!(cursor, p + 1);
                assert_eq!(delete_before(&longer, cursor), (text.to_string(), p));
            }
        }
    }
}

#[test]
fn a_combining_mark_joins_the_cluster_before_it() {
    // The inserted mark does not stay a cluster of its own, so deleting
    // before the cursor takes the whole "é" away.
    let (text, cursor) = insert("e", 1, "\u{301}");
    assert_eq!(text, "e\u{301}");
    assert_eq!(cursor, 2);
    assert_eq!(length_in_clusters(&text), 1);
    assert_eq!(delete_before(&text, cursor), ("".to_string(), 0));
}

#[test]
fn a_cluster_of_several_code_units_is_one_unit() {
    let (text, cursor) = insert("ab", 1, "e\u{301}");
    assert_eq!(text, "ae\u{301}b");
    assert_eq!(cursor, 2);
    assert_eq!(length_in_clusters(&text), 3);
    assert_eq!(delete_before(&text, 2), ("ab".to_string(), 1));

    let (text, cursor) = insert("", 0, "é");
    assert_eq!(text.len(), 2);
    assert_eq!(cursor, 1);
    assert_eq!(length_in_clusters(&text), 1);
    assert_eq!(delete_before(&text, 1), ("".to_string(), 0));
}

#[test]
fn clusters_of_splits_at_cluster_boundaries() {
    assert_eq!(clusters_of(""), Vec::<String>::new());
    assert_eq!(clusters_of("abc"), vec!["a", "b", "c"]);
    assert_eq!(
        clusters_of("a\u{310}e\u{301}o\u{308}\u{332}"),
        vec!["a\u{310}", "e\u{301}", "o\u{308}\u{332}"]
    );
    assert_eq!(clusters_of("a\r\nb🇷🇺🇸🇹"), vec!["a", "\r\n", "b", "🇷🇺", "🇸🇹"]);
}

#[test]
fn clusters_of_spells_the_text() {
    for text in ["", "abc", "e\u{301}o\u{308}", "a\r\nb🇷🇺🇸🇹", "añ\u{301}"] {
        assert_eq!(clusters_of(text).concat(), text);
        assert_eq!(clusters_of(text).len(), length_in_clusters(text));
    }
}

#[test]
fn same_clusters_compares_lists_of_texts() {
    let a = vec!["a".to_string(), "bc".to_string()];
    assert!(same_clusters(&a, &vec!["a".to_string(), "bc".to_string()]));
    assert!(!same_clusters(&a, &vec!["a".to_string(), "bd".to_string()]));
    assert!(!same_clusters(&a, &vec!["ab".to_string(), "c".to_string()]));
    assert!(!same_clusters(&a, &vec!["a".to_string()]));
    assert!(same_clusters(&Vec::new(), &Vec::new()));
}

#[test]
fn inserts_apart_tells_when_the_round_trip_holds() {
    assert!(inserts_apart("", 0, "a"));
    assert!(inserts_apart("ac", 1, "b"));
    assert!(inserts_apart("ab", 9, "e\u{301}"));
    assert!(inserts_apart("e\u{301}o\u{308}", 1, "🇷🇺"));
    // A combining mark joins the letter before it.
    assert!(!inserts_apart("e", 1, "\u{301}"));
    // Two letters are two clusters, not one.
    assert!(!inserts_apart("ac", 1, "xy"));
    // A second flag letter pairs with the one before it.
    assert!(!inserts_apart("🇷", 1, "🇺"));
    // Line feeds are not inserted.
    assert!(!inserts_apart("ab", 1, "\n"));
    assert!(!inserts_apart("ab", 1, "\r\n"));
}

#[test]
fn inserts_apart_agrees_with_insert_and_delete() {
    let texts = ["", "a", "e", "abc", "e\u{301}o\u{308}", "🇷"];
    let clusters = ["x", "\u{301}", "e\u{301}", "🇺", "\u{200d}"];
    for text in texts {
        for p in 0..=length_in_clusters(text) {
            for cluster in clusters {
                if inserts_apart(text, p, cluster) {
                    let (longer, cursor) = insert(text, p, cluster);
                    assert_eq!(cursor, p + 1);
                    assert_eq!(length_in_clusters(&longer), length_in_clusters(text) + 1);
                    assert_eq!(delete_before(&longer, cursor), (text.to_string(), p));
                }
            }
        }
    }
}
