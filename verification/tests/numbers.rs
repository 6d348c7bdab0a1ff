use pdf_content::content::text_math::{
    divide_scalar, product_divide, rounded_scene_scalar, scene_font_point, text_adjustment,
    text_advance,
};
use pdf_content::{ContentNumber, ContentVmErrorCode, FontPoint, SceneError, SceneScalar};

fn parsed(raw: &[u8]) -> i64 {
    ContentNumber::parse(raw).unwrap().scaled()
}

fn refused(raw: &[u8]) -> ContentVmErrorCode {
    ContentNumber::parse(raw).err().unwrap().code()
}

fn scalar(scaled: i64) -> SceneScalar {
    SceneScalar::from_scaled(scaled)
}

#[test]
fn lexemes_denote_exact_decimals() {
    assert_eq!(parsed(b"0"), 0);
    assert_eq!(parsed(b"-0.0"), 0);
    assert_eq!(parsed(b"12"), 12_000_000_000);
    assert_eq!(parsed(b"+1.25"), 1_250_000_000);
    assert_eq!(parsed(b"-.5"), -500_000_000);
    assert_eq!(parsed(b"4."), 4_000_000_000);
    assert_eq!(parsed(b"0.000000001"), 1);
    assert_eq!(parsed(b"1.0000000000"), 1_000_000_000);
    assert_eq!(parsed(b"9223372036.854775807"), i64::MAX);
    assert_eq!(parsed(b"-9223372036.854775808"), i64::MIN);
}

#[test]
fn lexemes_that_are_not_representable_are_refused() {
    assert_eq!(refused(b""), ContentVmErrorCode::InvalidNumber);
    assert_eq!(refused(b"."), ContentVmErrorCode::InvalidNumber);
    assert_eq!(refused(b"1.2.3"), ContentVmErrorCode::InvalidNumber);
    assert_eq!(refused(b"--1"), ContentVmErrorCode::InvalidNumber);
    assert_eq!(refused(b"0.0000000001"), ContentVmErrorCode::NumericPrecision);
    assert_eq!(refused(b"9223372037"), ContentVmErrorCode::NumericOverflow);
}

#[test]
fn integers_are_scaled_exactly() {
    assert_eq!(ContentNumber::from_integer(-3).unwrap().scaled(), -3_000_000_000);
    assert_eq!(
        ContentNumber::from_integer(i64::MAX).err().unwrap().code(),
        ContentVmErrorCode::NumericOverflow
    );
    assert_eq!(ContentNumber::from_scaled(5).scaled(), 5);
}

#[test]
fn quotients_round_halves_away_from_zero() {
    assert_eq!(rounded_scene_scalar(5, 2).unwrap(), scalar(3));
    assert_eq!(rounded_scene_scalar(-5, 2).unwrap(), scalar(-3));
    assert_eq!(rounded_scene_scalar(4, 3).unwrap(), scalar(1));
    assert_eq!(rounded_scene_scalar(-4, 3).unwrap(), scalar(-1));
    assert_eq!(rounded_scene_scalar(1, 0).unwrap_err(), SceneError::NumericOverflow);
    assert_eq!(rounded_scene_scalar(i128::MAX, 1).unwrap_err(), SceneError::NumericOverflow);
    assert_eq!(rounded_scene_scalar(i64::MIN as i128, 1).unwrap(), scalar(i64::MIN));
    assert_eq!(divide_scalar(scalar(150), 100).unwrap(), scalar(2));
    assert_eq!(
        product_divide(scalar(2_000_000_000), scalar(3_000_000_000), 1_000).unwrap(),
        scalar(6_000_000)
    );
}

#[test]
fn advances_add_spacing_and_adjustments_move_back() {
    let size = scalar(12_000_000_000);
    let character = scalar(1_000_000_000);
    let word = scalar(500_000_000);
    assert_eq!(
        text_advance(size, character, word, 500, b'a').unwrap(),
        scalar(7_000_000_000)
    );
    assert_eq!(
        text_advance(size, character, word, 500, b' ').unwrap(),
        scalar(7_500_000_000)
    );
    let adjustment = ContentNumber::from_integer(-250).unwrap();
    assert_eq!(text_adjustment(size, adjustment).unwrap(), scalar(3_000_000_000));
    assert_eq!(
        text_advance(scalar(i64::MAX), character, word, 1_000, b'a').unwrap_err(),
        SceneError::NumericOverflow
    );
}

#[test]
fn font_points_are_in_half_units() {
    let point = scene_font_point(FontPoint { x: 3, y: -2 });
    assert_eq!(point.x, scalar(1_500_000_000));
    assert_eq!(point.y, scalar(-1_000_000_000));
    let extreme = scene_font_point(FontPoint { x: i32::MIN, y: i32::MAX });
    assert_eq!(extreme.x, scalar(i32::MIN as i64 * 500_000_000));
    assert_eq!(extreme.y, scalar(i32::MAX as i64 * 500_000_000));
}

#[test]
fn numbers_order_by_their_scaled_integers() {
    let values = [i64::MIN, -1_000_000_000, -1, 0, 1, 999_999_999, 1_000_000_000, i64::MAX];
    for left in values {
        for right in values {
            let (a, b) = (ContentNumber::from_scaled(left), ContentNumber::from_scaled(right));
            assert_eq!(a < b, left < right);
            assert_eq!(a == b, left == right);
            assert_eq!(a.cmp(&b), left.cmp(&right));
            assert_eq!(a.scaled(), left);
        }
    }
    assert_eq!(ContentNumber::zero().scaled(), 0);
    assert_eq!(ContentNumber::one().scaled(), 1_000_000_000);
    assert!(ContentNumber::zero() < ContentNumber::one());
}
