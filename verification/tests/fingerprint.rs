use trailsense_edge::models::{ClassifierBank, WeakClassifier, CODE_BITS};
use trailsense_edge::probes::probe_parser::fingerprint_probe;

fn classifier(positive: &[u8], negative: &[u8], threshold: i32) -> WeakClassifier {
    WeakClassifier::new(positive.to_vec(), negative.to_vec(), threshold).unwrap()
}

fn bank(classifiers: Vec<WeakClassifier>) -> ClassifierBank {
    ClassifierBank::new(classifiers).unwrap()
}

#[test]
fn single_classifier_reaches_threshold() {
    let b = bank(vec![classifier(&[0x0F, 0x00], &[0x00, 0x00], 2)]);
    assert_eq!(fingerprint_probe(&[0xA5, 0xFF], &b), 1);
}

#[test]
fn single_classifier_below_threshold() {
    let b = bank(vec![classifier(&[0x0F, 0x00], &[0x00, 0x00], 3)]);
    assert_eq!(fingerprint_probe(&[0xA5, 0xFF], &b), 0);
}

#[test]
fn score_counts_positive_minus_negative_bits() {
    let c = classifier(&[0xF0, 0x01, 0x00], &[0x0F, 0x02, 0xFF], 0);
    // byte 0: +4 -2, byte 1: +1 -1, byte 2: +0 -3
    assert_eq!(c.score(&[0xF3, 0x03, 0x07]), -1);
    assert!(!c.output(&[0xF3, 0x03, 0x07]));
    assert_eq!(c.score(&[0xF3, 0x03]), 2);
    assert!(c.output(&[0xF3, 0x03]));
}

#[test]
fn score_of_full_byte_is_eight() {
    let c = classifier(&[0xFF], &[0x00], 8);
    assert_eq!(c.score(&[0xFF]), 8);
    assert!(c.output(&[0xFF]));
    assert_eq!(c.score(&[0x7F]), 7);
    assert!(!c.output(&[0x7F]));
}

#[test]
fn empty_body_scores_zero() {
    let b = bank(vec![
        classifier(&[0xFF], &[0x00], 0),
        classifier(&[0xFF], &[0x00], 1),
        classifier(&[0x00], &[0xFF], -1),
        classifier(&[0x00], &[0xFF], 0),
    ]);
    // thresholds 0, 1, -1, 0: bits 1 0 1 1
    assert_eq!(fingerprint_probe(&[], &b), 0b1011);
}

#[test]
fn short_body_is_scored_over_its_own_length() {
    let b = bank(vec![classifier(&[0x01, 0x01, 0x01], &[0x00, 0x00, 0x00], 2)]);
    assert_eq!(fingerprint_probe(&[0x01, 0x01, 0x01], &b), 1);
    assert_eq!(fingerprint_probe(&[0x01, 0x01], &b), 1);
    assert_eq!(fingerprint_probe(&[0x01], &b), 0);
}

#[test]
fn long_body_is_scored_over_the_masks_only() {
    let b = bank(vec![classifier(&[0x01], &[0x00], 2)]);
    assert_eq!(fingerprint_probe(&[0x01, 0x01, 0x01], &b), 0);
}

#[test]
fn first_classifier_is_most_significant() {
    let yes = || classifier(&[0x01], &[0x00], 1);
    let no = || classifier(&[0x01], &[0x00], 2);
    assert_eq!(fingerprint_probe(&[0x01], &bank(vec![yes(), no(), no()])), 0b100);
    assert_eq!(fingerprint_probe(&[0x01], &bank(vec![no(), yes(), no()])), 0b010);
    assert_eq!(fingerprint_probe(&[0x01], &bank(vec![no(), no(), yes()])), 0b001);
}

#[test]
fn sixteen_classifiers_fill_the_code() {
    let mut all = Vec::new();
    for i in 0..16 {
        all.push(classifier(&[0x01], &[0x00], if i == 0 || i == 15 { 1 } else { 2 }));
    }
    assert_eq!(fingerprint_probe(&[0x01], &bank(all)), 0x8001);
}

#[test]
fn empty_bank_gives_zero() {
    assert_eq!(fingerprint_probe(&[1, 2, 3], &bank(Vec::new())), 0);
}

#[test]
fn fingerprint_is_pure() {
    let b = bank(vec![
        classifier(&[0x0F, 0xF0], &[0xF0, 0x0F], 1),
        classifier(&[0xAA, 0x55], &[0x55, 0xAA], -2),
    ]);
    let body = [0x3C, 0xC3, 0x99];
    let first = fingerprint_probe(&body, &b);
    let second = fingerprint_probe(&body, &b);
    assert_eq!(first, second);
    assert_eq!(first, 0b01);
}

#[test]
fn overlapping_masks_are_refused() {
    assert!(WeakClassifier::new(vec![0x01, 0x10], vec![0x02, 0x30], 0).is_none());
    assert!(WeakClassifier::new(vec![0x01, 0x10], vec![0x02, 0x20], 0).is_some());
}

#[test]
fn masks_of_different_length_are_refused() {
    assert!(WeakClassifier::new(vec![0x01, 0x10], vec![0x02], 0).is_none());
    assert!(WeakClassifier::new(Vec::new(), Vec::new(), 0).is_some());
}

#[test]
fn classifier_getters_return_the_parts() {
    let c = classifier(&[1, 2], &[4, 8], -7);
    assert_eq!(c.positive_mask(), &[1, 2]);
    assert_eq!(c.negative_mask(), &[4, 8]);
    assert_eq!(c.threshold(), -7);
}

#[test]
fn bank_takes_at_most_sixteen() {
    let many = |n: usize| (0..n).map(|_| classifier(&[0x01], &[0x00], 1)).collect::<Vec<_>>();
    assert_eq!(CODE_BITS, 16);
    assert!(ClassifierBank::new(many(17)).is_none());
    let full = ClassifierBank::new(many(16)).unwrap();
    assert_eq!(full.len(), 16);
    assert_eq!(full.classifier(3).threshold(), 1);
}
