use chat_tts::speakers::sort_speakers;

#[test]
fn speakers_come_out_sorted_by_id_ascending() {
    let given = vec![
        (3, "gamma".to_string()),
        (1, "alpha".to_string()),
        (2, "beta".to_string()),
        (0, "zero".to_string()),
    ];
    let sorted = sort_speakers(given);
    let ids: Vec<i32> = sorted.iter().map(|p| p.0).collect();
    assert_eq!(ids, vec![0, 1, 2, 3]);
    assert_eq!(sorted[0].1, "zero");
    assert_eq!(sorted[1].1, "alpha");
    assert_eq!(sorted[2].1, "beta");
    assert_eq!(sorted[3].1, "gamma");
}

#[test]
fn sorting_keeps_every_pair_including_duplicates() {
    let given = vec![
        (2, "b".to_string()),
        (1, "a".to_string()),
        (2, "b2".to_string()),
        (-1, "neg".to_string()),
    ];
    let mut expected = given.clone();
    let sorted = sort_speakers(given);
    assert_eq!(sorted.len(), 4);
    let ids: Vec<i32> = sorted.iter().map(|p| p.0).collect();
    assert_eq!(ids, vec![-1, 1, 2, 2]);
    expected.sort_by_key(|p| p.0);
    for pair in &expected {
        assert!(sorted.contains(pair));
    }
}

#[test]
fn sorting_an_empty_list_gives_an_empty_list() {
    let sorted = sort_speakers(Vec::new());
    assert!(sorted.is_empty());
}
