use firmium::sorted_ids::{offline_home_cover_ids, sort_dedup, str_less};

fn strings(v: &[&str]) -> Vec<String> {
    v.iter().map(|s| s.to_string()).collect()
}

#[test]
fn string_order_matches_std() {
    let samples = ["", "a", "b", "ab", "abc", "B", "é", "z", "aa", "al-1", "al-10", "al-2"];
    for a in samples {
        for b in samples {
            assert_eq!(str_less(a, b), a < b, "{a:?} < {b:?}");
        }
    }
}

#[test]
fn sort_dedup_orders_and_removes_repeats() {
    let got = sort_dedup(strings(&["c", "a", "b", "a", "c"]));
    assert_eq!(got, strings(&["a", "b", "c"]));
    assert!(sort_dedup(Vec::new()).is_empty());
}

#[test]
fn offline_home_ids_merge_sections() {
    let recent = vec![Some("al-2".to_string()), None, Some("al-1".to_string())];
    let newest = vec![Some("al-1".to_string())];
    let random = vec![None, Some("al-3".to_string()), Some("al-2".to_string())];
    assert_eq!(offline_home_cover_ids(&recent, &newest, &random), strings(&["al-1", "al-2", "al-3"]));
}
