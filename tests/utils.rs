use enemy_ai::utils::{input_axis, serialize_range};

#[test]
fn serialize_range_test() {
    assert_eq!(serialize_range(&(1..5)).as_str(), "<4");
    assert_eq!(serialize_range(&(2..7)).as_str(), "2..6");
    assert_eq!(serialize_range(&(1..2)).as_str(), "=1");
}

#[test]
fn serialize_range_multi_digit() {
    assert_eq!(serialize_range(&(0..120)).as_str(), "<119");
    assert_eq!(serialize_range(&(10..11)).as_str(), "=10");
    assert_eq!(serialize_range(&(37..1005)).as_str(), "37..1004");
}

#[test]
fn input_axis_combines_keys() {
    assert_eq!(input_axis(false, false, false, false), (0, 0));
    assert_eq!(input_axis(true, false, false, true), (-1, 1));
    assert_eq!(input_axis(true, true, true, false), (0, -1));
    assert_eq!(input_axis(false, true, false, false), (1, 0));
}
