use taskmenu::order::{label_order, rank_order};

#[test]
fn rank_order_of_nothing_is_empty() {
    assert!(rank_order(&vec![]).is_empty());
    assert!(label_order(&vec![]).is_empty());
}

#[test]
fn rank_order_puts_small_ranks_first() {
    assert_eq!(rank_order(&vec![Some(3), Some(-5), Some(0)]), vec![1, 2, 0]);
}

#[test]
fn rank_order_puts_entries_without_rank_first() {
    assert_eq!(
        rank_order(&vec![Some(i32::MIN), None, Some(7), None, Some(i32::MAX)]),
        vec![1, 3, 0, 2, 4]
    );
}

#[test]
fn rank_order_keeps_equal_ranks_in_place() {
    assert_eq!(rank_order(&vec![Some(1), Some(0), Some(1), Some(0), Some(1)]), vec![1, 3, 0, 2, 4]);
}

#[test]
fn rank_order_agrees_with_a_stable_sort() {
    let mut seed: u64 = 0x2545_f491_4f6c_dd1d;
    for round in 0..200 {
        let n = round % 17;
        let mut ranks: Vec<Option<i32>> = Vec::new();
        for _ in 0..n {
            seed ^= seed << 13;
            seed ^= seed >> 7;
            seed ^= seed << 17;
            let r = (seed % 7) as i32 - 3;
            ranks.push(if seed % 5 == 0 { None } else { Some(r) });
        }
        let mut expected: Vec<usize> = (0..n as usize).collect();
        expected.sort_by_key(|k| ranks[*k]);
        assert_eq!(rank_order(&ranks), expected);
    }
}

#[test]
fn label_order_puts_the_last_label_first() {
    let labels: Vec<Vec<char>> =
        ["2020-01-01 b", "2021-06-30 a", "2019-12-31 c"].iter().map(|l| l.chars().collect()).collect();
    assert_eq!(label_order(&labels), vec![1, 0, 2]);
}

#[test]
fn label_order_keeps_equal_labels_in_place() {
    let labels: Vec<Vec<char>> =
        ["b", "a", "b", "c", "a", ""].iter().map(|l| l.chars().collect()).collect();
    assert_eq!(label_order(&labels), vec![3, 0, 2, 1, 4, 5]);
}

#[test]
fn label_order_agrees_with_a_stable_sort_in_reverse() {
    let words = ["", "a", "ab", "abc", "b", "ba", "é", "z", "日本", "a b"];
    let mut seed: u64 = 0x9e37_79b9_7f4a_7c15;
    for round in 0..200 {
        let n = round % 13;
        let mut labels: Vec<String> = Vec::new();
        for _ in 0..n {
            seed ^= seed << 13;
            seed ^= seed >> 7;
            seed ^= seed << 17;
            labels.push(words[(seed % words.len() as u64) as usize].to_string());
        }
        let mut expected: Vec<usize> = (0..n as usize).collect();
        expected.sort_by(|a, b| labels[*a].cmp(&labels[*b]).reverse());
        let rows: Vec<Vec<char>> = labels.iter().map(|l| l.chars().collect()).collect();
        assert_eq!(label_order(&rows), expected);
    }
}
