use offline_gemma::sampler::{select, select_token};

#[test]
fn select_picks_the_highest_score() {
    assert_eq!(select(&vec![1, 7, 3]), Some(1));
    assert_eq!(select(&vec![-5, -9, -1]), Some(2));
    assert_eq!(select(&vec![42]), Some(0));
}

#[test]
fn select_breaks_ties_by_lowest_id() {
    assert_eq!(select(&vec![4, 9, 9, 2, 9]), Some(1));
    assert_eq!(select(&vec![0, 0, 0]), Some(0));
    assert_eq!(select(&vec![i64::MIN, i64::MIN]), Some(0));
}

#[test]
fn select_on_no_scores_chooses_nothing() {
    assert_eq!(select(&Vec::new()), None);
    assert_eq!(select_token(&Vec::new()), None);
}

#[test]
fn select_handles_the_extremes() {
    assert_eq!(select(&vec![i64::MIN, i64::MAX, 0]), Some(1));
    assert_eq!(select(&vec![i64::MAX, i64::MAX]), Some(0));
}

#[test]
fn select_stays_inside_the_vocabulary() {
    let mut scores: Vec<i64> = Vec::new();
    let mut seed: i64 = 17;
    for size in 1..60usize {
        seed = (seed * 1103515245 + 12345) % 2147483648;
        scores.push(seed % 1000 - 500);
        let choice = select(&scores).unwrap();
        assert!(choice < size);
        for (j, score) in scores.iter().enumerate() {
            assert!(*score <= scores[choice]);
            if j < choice {
                assert!(*score < scores[choice]);
            }
        }
        assert_eq!(select_token(&scores), Some(choice as u32));
    }
}
