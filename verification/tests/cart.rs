use cartpole::cart::{
    Cart, GRAVITY, MASS, PEND_FRICTION, PEND_LENGTH, POWER, TRACK_FRICTION, TRACK_LENGTH,
    WINDOW_WIDTH,
};

#[test]
fn standard_constants_have_their_documented_values() {
    assert_eq!(PEND_LENGTH, 500);
    assert_eq!(GRAVITY, 10);
    assert_eq!(MASS, 700);
    assert_eq!(POWER, 12);
    assert_eq!(TRACK_FRICTION, 10);
    assert_eq!(PEND_FRICTION, 1);
    assert_eq!(TRACK_LENGTH, 1200);
    assert_eq!(WINDOW_WIDTH, 1280);
}

#[test]
fn default_with_coin_builds_the_standard_cart() {
    let cart = Cart::default_with_coin(true);
    assert_eq!(
        cart,
        Cart {
            mass: 700,
            power: 12,
            track_friction: 10,
            pend_length: 500,
            pend_friction: 1,
            gravity: 10,
            track_length: 1200,
            window_width: 1280,
            start_angle: 1,
            score: 0,
            dead: false,
        }
    );
}

#[test]
fn heads_leans_right_and_tails_leans_left() {
    assert_eq!(Cart::default_with_coin(true).start_angle, 1);
    assert_eq!(Cart::default_with_coin(false).start_angle, -1);
    assert_eq!(Cart::new_with_coin(1, 2, 3, 4, 5, 6, 7, 8, true).start_angle, 1);
    assert_eq!(Cart::new_with_coin(1, 2, 3, 4, 5, 6, 7, 8, false).start_angle, -1);
}

#[test]
fn new_with_coin_keeps_each_parameter_in_its_field() {
    let cart = Cart::new_with_coin(1, 2, 3, 4, 5, 6, 7, 8, false);
    assert_eq!(cart.pend_length, 1);
    assert_eq!(cart.gravity, 2);
    assert_eq!(cart.mass, 3);
    assert_eq!(cart.power, 4);
    assert_eq!(cart.track_friction, 5);
    assert_eq!(cart.pend_friction, 6);
    assert_eq!(cart.track_length, 7);
    assert_eq!(cart.window_width, 8);
    assert_eq!(cart.score, 0);
    assert!(!cart.dead);
}

#[test]
fn new_differs_from_new_with_coin_only_in_the_lean() {
    for _ in 0..50 {
        let cart = Cart::new(-1, 0, i32::MAX, i32::MIN, 5, 6, 7, 8);
        let heads = cart.start_angle == 1;
        assert_eq!(cart, Cart::new_with_coin(-1, 0, i32::MAX, i32::MIN, 5, 6, 7, 8, heads));
    }
}

#[test]
fn default_starts_one_milliradian_off_upright() {
    for _ in 0..50 {
        let cart = Cart::default();
        assert!(cart.start_angle == 1 || cart.start_angle == -1);
        assert_eq!(cart, Cart::default_with_coin(cart.start_angle == 1));
    }
}

#[test]
fn random_start_leans_to_both_sides() {
    let mut right = 0;
    let mut left = 0;
    for _ in 0..400 {
        match Cart::default().start_angle {
            1 => right += 1,
            -1 => left += 1,
            other => panic!("start angle {other} is not one milliradian"),
        }
    }
    assert!(right > 0);
    assert!(left > 0);
}

#[test]
fn drive_pushes_right_left_or_not_at_all() {
    let cart = Cart::default_with_coin(true);
    assert_eq!(cart.drive(true, false), 12);
    assert_eq!(cart.drive(false, true), -12);
    assert_eq!(cart.drive(false, false), 0);
    assert_eq!(cart.drive(true, true), 0);
}

#[test]
fn drive_is_exact_at_the_ends_of_the_range() {
    let strongest = Cart::new_with_coin(1, 1, 1, i32::MAX, 1, 1, 1, 1, true);
    assert_eq!(strongest.drive(true, false), 2147483647);
    assert_eq!(strongest.drive(false, true), -2147483647);
    let backwards = Cart::new_with_coin(1, 1, 1, i32::MIN, 1, 1, 1, 1, true);
    assert_eq!(backwards.drive(true, false), -2147483648);
    assert_eq!(backwards.drive(false, true), 2147483648);
    assert_eq!(backwards.drive(true, true), 0);
}

#[test]
fn update_counts_one_tick() {
    let mut cart = Cart::default_with_coin(false);
    cart.update(false);
    assert_eq!(cart.score, 1);
    assert!(!cart.dead);
    cart.update(false);
    assert_eq!(cart.score, 2);
    assert!(!cart.dead);
    assert_eq!(cart, Cart { score: 2, ..Cart::default_with_coin(false) });
}

#[test]
fn update_marks_a_fallen_cart_dead_in_the_same_tick() {
    let mut cart = Cart::default_with_coin(true);
    cart.update(false);
    cart.update(true);
    assert!(cart.dead);
    assert_eq!(cart.score, 2);
    assert_eq!(cart, Cart { score: 2, dead: true, ..Cart::default_with_coin(true) });
}

#[test]
fn update_reaches_the_largest_score() {
    let mut cart = Cart { score: u32::MAX - 1, ..Cart::default_with_coin(true) };
    cart.update(false);
    assert_eq!(cart.score, u32::MAX);
}
