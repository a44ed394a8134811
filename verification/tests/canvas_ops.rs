use draw::canvas::Canvas;
use draw::contexts::CreatePixel;
use draw::contexts::UpdatePixel;
use draw::draw::create_pixel;
use draw::draw::update_pixel;
use draw::errors::ErrorCode;
use draw::events::EventEmitter;
use draw::events::PixelChanged;
use draw::pixel::Pixel;

fn fresh() -> (Canvas, EventEmitter) {
    (Canvas::new(), EventEmitter::new())
}

#[test]
fn create_then_read_returns_exact_values() {
    let (mut canvas, mut emitter) = fresh();
    let res = create_pixel(CreatePixel { bump: 7 }, &mut canvas, &mut emitter, 42, 13, 1, 2, 3);
    assert_eq!(res, Ok(()));
    let stored = canvas.get(42, 13).unwrap();
    assert_eq!(
        stored,
        Pixel { pos_x: 42, pos_y: 13, col_r: 1, col_g: 2, col_b: 3, bump: 7 }
    );
}

#[test]
fn create_at_origin_stores_and_emits() {
    let (mut canvas, mut emitter) = fresh();
    let res = create_pixel(CreatePixel { bump: 254 }, &mut canvas, &mut emitter, 0, 0, 255, 0, 0);
    assert_eq!(res, Ok(()));
    let stored = canvas.get(0, 0).unwrap();
    assert_eq!(
        (stored.pos_x, stored.pos_y, stored.col_r, stored.col_g, stored.col_b),
        (0, 0, 255, 0, 0)
    );
    assert_eq!(
        emitter.log().as_slice(),
        &[PixelChanged { pos_x: 0, pos_y: 0, col_r: 255, col_g: 0, col_b: 0 }]
    );
}

#[test]
fn create_with_x_out_of_bounds_leaves_no_record() {
    let (mut canvas, mut emitter) = fresh();
    let res = create_pixel(CreatePixel { bump: 1 }, &mut canvas, &mut emitter, 100, 0, 1, 1, 1);
    assert_eq!(res, Err(ErrorCode::InvalidXCoordinate));
    assert!(canvas.get(100, 0).is_none());
    assert!(emitter.log().is_empty());
}

#[test]
fn create_with_y_out_of_bounds_leaves_no_record() {
    let (mut canvas, mut emitter) = fresh();
    let res = create_pixel(CreatePixel { bump: 1 }, &mut canvas, &mut emitter, 3, 200, 9, 9, 9);
    assert_eq!(res, Err(ErrorCode::InvalidYCoordinate));
    assert!(canvas.get(3, 200).is_none());
    assert!(emitter.log().is_empty());
}

#[test]
fn x_check_comes_before_y_check() {
    let (mut canvas, mut emitter) = fresh();
    let res = create_pixel(CreatePixel { bump: 1 }, &mut canvas, &mut emitter, 255, 255, 0, 0, 0);
    assert_eq!(res, Err(ErrorCode::InvalidXCoordinate));
}

#[test]
fn second_create_fails_and_keeps_first_values() {
    let (mut canvas, mut emitter) = fresh();
    let first = create_pixel(CreatePixel { bump: 9 }, &mut canvas, &mut emitter, 1, 1, 0, 0, 0);
    assert_eq!(first, Ok(()));
    let second = create_pixel(CreatePixel { bump: 9 }, &mut canvas, &mut emitter, 1, 1, 50, 60, 70);
    assert_eq!(second, Err(ErrorCode::AlreadyExists));
    assert_eq!(
        canvas.get(1, 1).unwrap(),
        Pixel { pos_x: 1, pos_y: 1, col_r: 0, col_g: 0, col_b: 0, bump: 9 }
    );
    assert_eq!(emitter.log().len(), 1);
}

#[test]
fn update_changes_only_color_fields() {
    let (mut canvas, mut emitter) = fresh();
    create_pixel(CreatePixel { bump: 3 }, &mut canvas, &mut emitter, 5, 5, 1, 2, 3).unwrap();
    let created = canvas.get(5, 5).unwrap();
    let res = update_pixel(
        UpdatePixel { pos_x: 5, pos_y: 5, bump: 3 },
        &mut canvas,
        &mut emitter,
        10,
        20,
        30,
    );
    assert_eq!(res, Ok(()));
    let updated = canvas.get(5, 5).unwrap();
    assert_eq!(
        updated,
        Pixel { pos_x: 5, pos_y: 5, col_r: 10, col_g: 20, col_b: 30, bump: 3 }
    );
    assert_eq!((updated.pos_x, updated.pos_y), (created.pos_x, created.pos_y));
    assert_eq!(updated.bump, created.bump);
}

#[test]
fn update_on_never_created_coordinate_is_not_found() {
    let (mut canvas, mut emitter) = fresh();
    let res = update_pixel(
        UpdatePixel { pos_x: 40, pos_y: 41, bump: 0 },
        &mut canvas,
        &mut emitter,
        1,
        1,
        1,
    );
    assert_eq!(res, Err(ErrorCode::NotFound));
    assert!(emitter.log().is_empty());
}

#[test]
fn update_with_wrong_proof_is_address_mismatch() {
    let (mut canvas, mut emitter) = fresh();
    create_pixel(CreatePixel { bump: 200 }, &mut canvas, &mut emitter, 8, 9, 4, 5, 6).unwrap();
    let res = update_pixel(
        UpdatePixel { pos_x: 8, pos_y: 9, bump: 199 },
        &mut canvas,
        &mut emitter,
        7,
        7,
        7,
    );
    assert_eq!(res, Err(ErrorCode::AddressMismatch));
    assert_eq!(
        canvas.get(8, 9).unwrap(),
        Pixel { pos_x: 8, pos_y: 9, col_r: 4, col_g: 5, col_b: 6, bump: 200 }
    );
    assert_eq!(emitter.log().len(), 1);
}

#[test]
fn every_successful_mutation_emits_one_event() {
    let (mut canvas, mut emitter) = fresh();
    create_pixel(CreatePixel { bump: 11 }, &mut canvas, &mut emitter, 2, 3, 10, 11, 12).unwrap();
    update_pixel(
        UpdatePixel { pos_x: 2, pos_y: 3, bump: 11 },
        &mut canvas,
        &mut emitter,
        90,
        91,
        92,
    )
    .unwrap();
    assert_eq!(
        emitter.log().as_slice(),
        &[
            PixelChanged { pos_x: 2, pos_y: 3, col_r: 10, col_g: 11, col_b: 12 },
            PixelChanged { pos_x: 2, pos_y: 3, col_r: 90, col_g: 91, col_b: 92 },
        ]
    );
}

#[test]
fn failing_calls_emit_nothing() {
    let (mut canvas, mut emitter) = fresh();
    let _ = create_pixel(CreatePixel { bump: 0 }, &mut canvas, &mut emitter, 100, 0, 1, 1, 1);
    let _ = update_pixel(
        UpdatePixel { pos_x: 0, pos_y: 0, bump: 0 },
        &mut canvas,
        &mut emitter,
        1,
        1,
        1,
    );
    assert!(emitter.log().is_empty());
}

#[test]
fn corner_coordinate_is_accepted() {
    let (mut canvas, mut emitter) = fresh();
    let res = create_pixel(CreatePixel { bump: 5 }, &mut canvas, &mut emitter, 99, 99, 255, 255, 255);
    assert_eq!(res, Ok(()));
    assert_eq!(
        canvas.get(99, 99).unwrap(),
        Pixel { pos_x: 99, pos_y: 99, col_r: 255, col_g: 255, col_b: 255, bump: 5 }
    );
}

#[test]
fn neighbouring_cells_do_not_collide() {
    let (mut canvas, mut emitter) = fresh();
    create_pixel(CreatePixel { bump: 1 }, &mut canvas, &mut emitter, 0, 99, 1, 1, 1).unwrap();
    create_pixel(CreatePixel { bump: 2 }, &mut canvas, &mut emitter, 1, 0, 2, 2, 2).unwrap();
    assert_eq!(canvas.get(0, 99).unwrap().col_r, 1);
    assert_eq!(canvas.get(1, 0).unwrap().col_r, 2);
    assert!(canvas.get(0, 0).is_none());
}

#[test]
fn fresh_canvas_has_no_records() {
    let (canvas, _) = fresh();
    assert!(canvas.get(0, 0).is_none());
    assert!(canvas.get(99, 99).is_none());
    assert!(canvas.get(50, 50).is_none());
}
