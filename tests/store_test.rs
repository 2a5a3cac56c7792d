use clip_search::keys::compare_keys;
use clip_search::ranking::{rank_descending, score_key, top_ranked, TOP_RESULTS};
use clip_search::store::Store;

fn dot(x: &[f32], y: &[f32]) -> f32 {
    x.iter().zip(y).map(|(a, b)| a * b).sum()
}

#[test]
fn keys_compare_bytewise() {
    assert!(compare_keys("a", "b") < 0);
    assert!(compare_keys("b", "a") > 0);
    assert_eq!(compare_keys("abc", "abc"), 0);
    assert!(compare_keys("ab", "abc") < 0);
    assert!(compare_keys("B", "a") < 0);
    assert!(compare_keys("", "a") < 0);
}

#[test]
fn store_keeps_keys_sorted_and_unique() {
    let mut s: Store<u32> = Store::new();
    s.insert("c".to_string(), 3);
    s.insert("a".to_string(), 1);
    s.insert("b".to_string(), 2);
    s.insert("a".to_string(), 10);
    assert_eq!(s.len(), 3);
    assert_eq!(s.key_at(0), "a");
    assert_eq!(s.key_at(1), "b");
    assert_eq!(s.key_at(2), "c");
    assert_eq!(*s.value_at(0), 10);
    assert!(s.contains_key("b"));
    assert!(!s.contains_key("d"));
    assert_eq!(s.get("c"), Some(&3));
    assert_eq!(s.get("z"), None);
}

#[test]
fn store_round_trip_through_entries() {
    let mut s: Store<Vec<u8>> = Store::new();
    s.insert("photos/b.jpg".to_string(), vec![2]);
    s.insert("photos/a.jpg".to_string(), vec![1]);
    s.insert("z.png".to_string(), vec![3]);
    let entries = s.into_entries();
    let expected = entries.clone();
    let t = Store::from_entries(entries);
    assert_eq!(t.into_entries(), expected);
}

#[test]
fn from_entries_later_entry_wins() {
    let t = Store::from_entries(vec![("k".to_string(), 1), ("j".to_string(), 2), ("k".to_string(), 3)]);
    assert_eq!(t.len(), 2);
    assert_eq!(t.get("k"), Some(&3));
    assert_eq!(t.key_at(0), "j");
}

#[test]
fn score_keys_order_like_scores() {
    let scores = [-2.5f32, -1.0, -0.0, 0.0, 1e-30, 0.5, 1.0, 3.0];
    for w in scores.windows(2) {
        if w[0] == w[1] {
            assert_eq!(score_key(w[0].to_bits()), score_key(w[1].to_bits()));
        } else {
            assert!(score_key(w[0].to_bits()) < score_key(w[1].to_bits()));
        }
    }
    assert_eq!(score_key(0.0f32.to_bits()), 0x8000_0000);
}

#[test]
fn ranking_is_descending_and_stable() {
    assert_eq!(rank_descending(&vec![5, 7, 5, 7]), vec![1, 3, 0, 2]);
    assert_eq!(rank_descending(&vec![]), Vec::<usize>::new());
    assert_eq!(rank_descending(&vec![1, 2, 3]), vec![2, 1, 0]);
    assert_eq!(rank_descending(&vec![4, 4, 4]), vec![0, 1, 2]);
}

#[test]
fn top_ranked_takes_the_first() {
    let keys: Vec<u32> = (0..120).collect();
    let top = top_ranked(&keys, TOP_RESULTS);
    assert_eq!(top.len(), 50);
    assert_eq!(top[0], 119);
    assert_eq!(top[49], 70);
    assert_eq!(top_ranked(&vec![3, 9], TOP_RESULTS), vec![1, 0]);
}

#[test]
fn closer_entry_ranks_first() {
    let mut s: Store<Vec<f32>> = Store::new();
    s.insert("b.jpg".to_string(), vec![0.0, 1.0]);
    s.insert("a.jpg".to_string(), vec![1.0, 0.0]);
    let query = [0.8f32, 0.6];
    let mut keys = Vec::new();
    for i in 0..s.len() {
        keys.push(score_key(dot(s.value_at(i), &query).to_bits()));
    }
    let order = top_ranked(&keys, TOP_RESULTS);
    assert_eq!(order.len(), 2);
    assert_eq!(s.key_at(order[0]), "a.jpg");
    assert_eq!(s.key_at(order[1]), "b.jpg");
}
