use dhara_tool::rank::{rank_before, rank_order, RankKey};

fn key(score: u32, level: u32, file_type: &str, mime: &str, extensions: &[&str], remarks: &str) -> RankKey {
    RankKey {
        score,
        level,
        file_type: file_type.to_owned(),
        mime_type: mime.to_owned(),
        extensions: extensions.iter().map(|e| (*e).to_owned()).collect(),
        remarks: remarks.to_owned(),
    }
}

#[test]
fn higher_score_ranks_first_then_lower_level() {
    let keys = vec![
        key(10, 2, "b", "m", &["x"], ""),
        key(30, 1, "z", "m", &["x"], ""),
        key(10, 1, "c", "m", &["x"], ""),
    ];
    assert_eq!(rank_order(&keys), vec![1, 2, 0]);
}

#[test]
fn texts_break_ties_in_ascending_order() {
    let keys = vec![
        key(5, 1, "Zip", "application/zip", &["zip"], "b"),
        key(5, 1, "Zip", "application/zip", &["zip"], "a"),
        key(5, 1, "Zip", "application/x-zip", &["zip"], "z"),
        key(5, 1, "Zip", "application/zip", &["jar"], "z"),
        key(5, 1, "Zip", "application/zip", &["jar", "zip"], "z"),
        key(5, 1, "Arc", "z/z", &["zz"], "z"),
    ];
    assert_eq!(rank_order(&keys), vec![5, 2, 3, 4, 1, 0]);
}

#[test]
fn equal_keys_keep_their_order() {
    let keys = vec![
        key(1, 1, "a", "m", &[], ""),
        key(2, 1, "a", "m", &[], ""),
        key(1, 1, "a", "m", &[], ""),
        key(1, 1, "a", "m", &[], ""),
    ];
    assert_eq!(rank_order(&keys), vec![1, 0, 2, 3]);
    assert!(!rank_before(&keys[0], &keys[2]));
    assert!(!rank_before(&keys[2], &keys[0]));
}

#[test]
fn ranking_is_a_sorted_permutation() {
    let mut keys = Vec::new();
    for i in 0..40u32 {
        let score = (i * 7) % 5;
        let level = (i * 3) % 4;
        let name = format!("t{}", (i * 11) % 6);
        keys.push(key(score, level, &name, "m", &[], ""));
    }
    let order = rank_order(&keys);
    let mut seen = order.clone();
    seen.sort();
    assert_eq!(seen, (0..40).collect::<Vec<usize>>());
    for w in order.windows(2) {
        assert!(!rank_before(&keys[w[1]], &keys[w[0]]));
    }
    assert_eq!(rank_order(&Vec::new()), Vec::<usize>::new());
}
