use draw::errors::ErrorCode;
use draw::pixel::Pixel;
use draw::pixel::BUMP_LENGTH;
use draw::pixel::COL_LENGTH;
use draw::pixel::DISCRIMINATOR_LENGTH;
use draw::pixel::POS_LENGTH;
use draw::validate::validate_create;
use draw::validate::validate_update;

#[test]
fn create_inputs_in_bounds_validate() {
    assert_eq!(validate_create(0, 0, 0, 0, 0), Ok(()));
    assert_eq!(validate_create(99, 99, 255, 255, 255), Ok(()));
    assert_eq!(validate_create(50, 7, 128, 0, 255), Ok(()));
}

#[test]
fn create_rejects_x_first() {
    assert_eq!(validate_create(100, 0, 0, 0, 0), Err(ErrorCode::InvalidXCoordinate));
    assert_eq!(validate_create(100, 100, 0, 0, 0), Err(ErrorCode::InvalidXCoordinate));
    assert_eq!(validate_create(255, 255, 255, 255, 255), Err(ErrorCode::InvalidXCoordinate));
}

#[test]
fn create_rejects_y_when_x_is_fine() {
    assert_eq!(validate_create(0, 100, 0, 0, 0), Err(ErrorCode::InvalidYCoordinate));
    assert_eq!(validate_create(99, 255, 9, 9, 9), Err(ErrorCode::InvalidYCoordinate));
}

#[test]
fn update_inputs_always_validate() {
    assert_eq!(validate_update(0, 0, 0), Ok(()));
    assert_eq!(validate_update(255, 255, 255), Ok(()));
    assert_eq!(validate_update(1, 128, 254), Ok(()));
}

#[test]
fn persisted_record_length_sums_tag_and_fields() {
    assert_eq!(
        Pixel::LEN,
        DISCRIMINATOR_LENGTH + 2 * POS_LENGTH + 3 * COL_LENGTH + BUMP_LENGTH
    );
    assert_eq!(Pixel::LEN, 14);
}
