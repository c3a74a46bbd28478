use tanchishe::high_score::HighScore;

#[test]
fn test_high_score_default_is_zero() {
    let score = HighScore::default();
    assert_eq!(score.value, 0);
}

#[test]
fn test_update_only_when_higher() {
    let mut high = HighScore { value: 50 };
    assert!(!high.update(30));
    assert_eq!(high.value, 50);
    assert!(high.update(70));
    assert_eq!(high.value, 70);
    assert!(!high.update(70));
}

#[test]
fn first_positive_score_is_a_record() {
    let mut high = HighScore::default();
    assert!(!high.update(0));
    assert!(high.update(10));
    assert_eq!(high.value, 10);
}
