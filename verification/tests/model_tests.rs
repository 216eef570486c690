use psyops_assessment::model::interpretation;
use psyops_assessment::model::Interpretation;
use psyops_assessment::model::ScoreError;
use psyops_assessment::model::ScoreModel;

#[test]
fn new_model_starts_at_minimum() {
    let m = ScoreModel::new();
    for i in 0..20 {
        assert_eq!(m.score(i), 1);
    }
    assert_eq!(m.total(), 20);
}

#[test]
fn total_is_sum_of_scores() {
    let mut m = ScoreModel::new();
    // Scores 1,2,3,4,5,1,2,... sum to 2 * (1+2+3+4+5) + 5 * 2 = 40.
    let mut expected: u32 = 0;
    for i in 0..20 {
        let v = (i % 5 + 1) as u8;
        m.set_score(i, v).unwrap();
        expected += v as u32;
    }
    assert_eq!(m.total(), expected);
    assert_eq!(m.total(), 60);
}

#[test]
fn total_stays_in_range_at_extremes() {
    let mut m = ScoreModel::new();
    assert_eq!(m.total(), 20);
    for i in 0..20 {
        m.set_score(i, 5).unwrap();
    }
    assert_eq!(m.total(), 100);
}

#[test]
fn set_score_rejects_bad_index() {
    let mut m = ScoreModel::new();
    assert_eq!(m.set_score(20, 3), Err(ScoreError::OutOfRange));
    assert_eq!(m.set_score(100, 3), Err(ScoreError::OutOfRange));
    assert_eq!(m.total(), 20);
}

#[test]
fn set_score_rejects_bad_value() {
    let mut m = ScoreModel::new();
    assert_eq!(m.set_score(0, 0), Err(ScoreError::OutOfRange));
    assert_eq!(m.set_score(0, 6), Err(ScoreError::OutOfRange));
    assert_eq!(m.score(0), 1);
}

#[test]
fn set_score_overwrites_only_its_question() {
    let mut m = ScoreModel::new();
    m.set_score(7, 4).unwrap();
    for i in 0..20 {
        assert_eq!(m.score(i), if i == 7 { 4 } else { 1 });
    }
}

#[test]
fn reset_restores_minimum_and_low() {
    let mut m = ScoreModel::new();
    for i in 0..20 {
        m.set_score(i, 5).unwrap();
    }
    m.reset();
    assert_eq!(m.total(), 20);
    assert_eq!(interpretation(m.total()), Interpretation::Low);
    // Idempotent.
    m.reset();
    assert_eq!(m.total(), 20);
}

#[test]
fn interpretation_boundaries_are_exact() {
    assert_eq!(interpretation(25), Interpretation::Low);
    assert_eq!(interpretation(26), Interpretation::Moderate);
    assert_eq!(interpretation(50), Interpretation::Moderate);
    assert_eq!(interpretation(51), Interpretation::Strong);
    assert_eq!(interpretation(75), Interpretation::Strong);
    assert_eq!(interpretation(76), Interpretation::Overwhelming);
    assert_eq!(interpretation(20), Interpretation::Low);
    assert_eq!(interpretation(100), Interpretation::Overwhelming);
}

#[test]
fn interpretation_texts() {
    assert_eq!(Interpretation::Low.text(), "Low likelihood of a PSYOP");
    assert_eq!(Interpretation::Moderate.text(), "Moderate likelihood—look deeper");
    assert_eq!(Interpretation::Strong.text(), "Strong likelihood—manipulation likely");
    assert_eq!(Interpretation::Overwhelming.text(), "Overwhelming signs of a PSYOP");
}
