use isascan::features::FeatureSet;
use isascan::report::render;

#[test]
fn empty_set_renders_nothing() {
    let fs = FeatureSet::new();
    let names = render(&fs);
    assert!(names.is_empty());
}

#[test]
fn union_sets_a_bit() {
    let mut fs = FeatureSet::new();
    assert!(!fs.contains(3));
    fs.union(3);
    assert!(fs.contains(3));
    assert!(!fs.contains(4));
}

#[test]
fn union_is_idempotent() {
    let mut fs = FeatureSet::new();
    fs.union(7);
    let once = render(&fs);
    fs.union(7);
    let twice = render(&fs);
    assert_eq!(once, twice);
    assert_eq!(once.len(), 1);
}

#[test]
fn out_of_range_id_is_ignored() {
    let mut fs = FeatureSet::new();
    fs.union(300);
    fs.union(65535);
    assert!(!fs.contains(300));
    assert!(!fs.contains(65535));
    assert!(render(&fs).is_empty());
}

#[test]
fn merge_unions_in_place() {
    let mut a = FeatureSet::new();
    a.union(1);
    a.union(9);
    let mut b = FeatureSet::new();
    b.union(9);
    b.union(30);
    a.merge(&b);
    assert!(a.contains(1));
    assert!(a.contains(9));
    assert!(a.contains(30));
    assert!(!a.contains(2));
    assert_eq!(render(&a).len(), 3);
}

#[test]
fn render_is_ascending_and_stable() {
    let mut fs = FeatureSet::new();
    fs.union(30);
    fs.union(1);
    fs.union(9);
    let first = render(&fs);
    let second = render(&fs);
    assert_eq!(first, second);
    assert_eq!(first.len(), 3);
    // ascending id order: the line for id 1 comes first, then 9, then 30
    let mut only_one = FeatureSet::new();
    only_one.union(1);
    assert_eq!(render(&only_one)[0], first[0]);
    let mut only_nine = FeatureSet::new();
    only_nine.union(9);
    assert_eq!(render(&only_nine)[0], first[1]);
}

#[test]
fn known_feature_renders_its_canonical_name() {
    let avx2 = iced_x86::CpuidFeature::AVX2 as u16;
    let mut fs = FeatureSet::new();
    fs.union(avx2);
    assert_eq!(render(&fs), vec!["AVX2".to_string()]);
}

#[test]
fn unknown_feature_renders_a_numbered_line() {
    // id 200 is inside the registry's capacity but past the known enumeration
    let mut fs = FeatureSet::new();
    fs.union(200);
    assert_eq!(render(&fs), vec!["unknown feature #200".to_string()]);
}
