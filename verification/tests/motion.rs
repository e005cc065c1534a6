use rafflen::chance::{roll_angle, roll_interval, scale};
use rafflen::dancers::{
    displacement, Dancer, Heading, Roll, ANIMATION_PERIOD, FLOOR_BIAS, FULL_TURN, MAX_X, MAX_Y,
    PIXEL, SIDE_WALL_BIAS, START_X, START_Y, TIMER_UNIT, UNIT_VECTOR,
};
use rafflen::geometry::Point;

fn west() -> Heading {
    Heading { angle: 180_000_000, cos: -UNIT_VECTOR, sin: 0 }
}

fn south() -> Heading {
    Heading { angle: 90_000_000, cos: 0, sin: UNIT_VECTOR }
}

fn north() -> Heading {
    Heading { angle: 270_000_000, cos: 0, sin: -UNIT_VECTOR }
}

fn dancer() -> Dancer {
    Dancer::new(String::from("Dancer 0"), 64, 16)
}

fn inside(d: &Dancer) -> bool {
    0 <= d.x
        && d.x <= MAX_X
        && 0 <= d.y
        && d.y <= MAX_Y
        && d.position.x as i64 == d.x / PIXEL
        && d.position.y as i64 == d.y / PIXEL
}

#[test]
fn new_dancer_stands_at_the_start() {
    let d = Dancer::new(String::from("Dancer 7"), 64, 16);
    assert_eq!(d.position, Point { x: 0, y: 0 });
    assert!(!d.animation);
    assert_eq!(d.direction, Heading { angle: 0, cos: 1_000_000, sin: 0 });
    assert_eq!(d.name, "Dancer 7");
    assert_eq!((d.x, d.y), (500_000_000, 300_000_000));
    assert_eq!((d.x, d.y), (START_X, START_Y));
    assert_eq!(d.movement_interval, 0);
    assert_eq!(d.animation_interval, 0);
    assert_eq!((d.name_x, d.name_y), (64, 16));
}

#[test]
fn displacement_follows_the_formula() {
    // one hundredth of a unit of time, straight ahead: 150 pixels
    assert_eq!(displacement(1_000_000, 10_000_000), 150_000_000);
    assert_eq!(displacement(-1_000_000, 10_000_000), -150_000_000);
    assert_eq!(displacement(500_000, 10_000_000), 75_000_000);
    assert_eq!(displacement(0, 10_000_000), 0);
    assert_eq!(displacement(1_000_000, 0), 0);
}

#[test]
fn displacement_rounds_towards_zero() {
    // 1 * 1 * 15000 / 10^9 is below one step either way
    assert_eq!(displacement(1, 1), 0);
    assert_eq!(displacement(-1, 1), 0);
    // 7 * 10000 * 15000 / 10^9 = 1.05
    assert_eq!(displacement(7, 10_000), 1);
    assert_eq!(displacement(-7, 10_000), -1);
}

#[test]
fn displacement_takes_the_longest_time() {
    let far = displacement(1_000_000, u64::MAX);
    assert_eq!(far, 1_000_000i128 * (u64::MAX as i128) * 15_000 / 1_000_000_000);
    assert_eq!(displacement(-1_000_000, u64::MAX), -far);
}

#[test]
fn scale_reads_the_top_bits_as_a_fraction() {
    assert_eq!(scale(1 << 63, FULL_TURN as u64), 180_000_000);
    assert_eq!(scale(1 << 63, TIMER_UNIT), 500_000_000);
    assert_eq!(scale(0, TIMER_UNIT), 0);
    assert_eq!(scale(u64::MAX, TIMER_UNIT), 999_999_999);
    assert_eq!(scale(u64::MAX, FULL_TURN as u64), 359_999_999);
    assert_eq!(scale(1 << 62, 360), 90);
    assert_eq!(scale(u64::MAX, 0), 0);
    assert_eq!(scale(u64::MAX, u64::MAX), u64::MAX - 2048);
}

#[test]
fn rolled_values_are_in_range() {
    let mut angles = Vec::new();
    for _ in 0..200 {
        let angle = roll_angle();
        assert!(angle < FULL_TURN);
        assert!(angle < 360_000_000);
        assert!(roll_interval() < 1_000_000_000);
        angles.push(angle);
    }
    assert!(angles.iter().any(|a| *a != angles[0]));
}

#[test]
fn ten_updates_with_every_draw_at_one_half() {
    let mut d = dancer();
    d.x = 500 * PIXEL;
    d.y = 300 * PIXEL;
    d.direction = Heading::east();
    d.movement_interval = TIMER_UNIT;
    let half: u64 = 1 << 63;
    let roll = Roll {
        heading: Heading { angle: scale(half, FULL_TURN as u64) as u32, cos: -UNIT_VECTOR, sin: 0 },
        interval: scale(half, TIMER_UNIT),
    };
    assert_eq!(roll.heading, west());
    assert!(roll.is_valid());
    let expected_x: [i64; 10] = [650, 500, 350, 200, 50, 0, 0, 0, 0, 0];
    let expected_timer: [u64; 10] = [
        400_000_000,
        500_000_000,
        500_000_000,
        500_000_000,
        500_000_000,
        500_000_000,
        500_000_000,
        500_000_000,
        500_000_000,
        500_000_000,
    ];
    for i in 0..10 {
        d.update(10_000_000, roll);
        assert_eq!(d.x, expected_x[i] * PIXEL);
        assert_eq!(d.y, 300 * PIXEL);
        assert_eq!(d.movement_interval, expected_timer[i]);
        assert_eq!(d.animation, i % 2 == 0);
        assert_eq!(d.animation_interval, 0);
        assert_eq!(d.position, Point { x: expected_x[i] as i32, y: 300 });
    }
    assert_eq!((d.x, d.y), (0, 300_000_000));
    assert_eq!(d.direction, west());
}

#[test]
fn position_stays_inside_the_window() {
    let headings = [Heading::east(), south(), west(), north(),
        Heading { angle: 45_000_000, cos: 707_107, sin: 707_107 },
        Heading { angle: 225_000_000, cos: -707_107, sin: -707_107 }];
    let deltas: [u64; 6] = [0, 1, 16_667, 10_000_000, 1_000_000_000, u64::MAX];
    let mut d = dancer();
    let mut n: usize = 0;
    for round in 0..50 {
        for h in headings.iter() {
            for dt in deltas.iter() {
                let roll = Roll { heading: *h, interval: (n as u64 * 7_919_191) % TIMER_UNIT };
                d.update(*dt, roll);
                assert!(inside(&d), "round {} step {}", round, n);
                assert!(d.movement_interval <= TIMER_UNIT);
                assert!(d.animation_interval <= ANIMATION_PERIOD);
                n += 1;
            }
        }
    }
}

#[test]
fn corners_are_reached_and_held() {
    let mut d = dancer();
    let far = Heading { angle: 45_000_000, cos: 707_107, sin: 707_107 };
    d.update(u64::MAX, Roll { heading: far, interval: 999_999_999 });
    assert_eq!((d.x, d.y), (976_000_000, 552_000_000));
    assert_eq!(d.position, Point { x: 976, y: 552 });
    let back = Heading { angle: 225_000_000, cos: -707_107, sin: -707_107 };
    d.update(u64::MAX, Roll { heading: back, interval: 0 });
    assert_eq!((d.x, d.y), (0, 0));
    assert_eq!(d.position, Point { x: 0, y: 0 });
}

#[test]
fn expired_timer_takes_the_roll() {
    let mut d = dancer();
    d.movement_interval = 59;
    let roll = Roll { heading: south(), interval: 123_456_789 };
    // 1 step of time is 60 timer steps: 59 - 60 < 0
    d.update(1, roll);
    assert_eq!(d.direction, south());
    assert!(d.direction.angle < FULL_TURN);
    assert_eq!(d.movement_interval, 123_456_789);
}

#[test]
fn running_timer_keeps_the_heading() {
    let mut d = dancer();
    d.movement_interval = 60;
    let roll = Roll { heading: south(), interval: 123_456_789 };
    // 60 - 60 is not below zero
    d.update(1, roll);
    assert_eq!(d.direction, Heading::east());
    assert_eq!(d.movement_interval, 0);
    // at zero, the next update with any time re-rolls
    d.update(1, roll);
    assert_eq!(d.direction, south());
    assert_eq!(d.movement_interval, 123_456_789);
}

#[test]
fn no_time_changes_nothing_but_the_shown_position() {
    let mut d = dancer();
    d.movement_interval = 0;
    d.update(0, Roll { heading: south(), interval: 5 });
    assert_eq!(d.direction, Heading::east());
    assert_eq!(d.movement_interval, 0);
    assert_eq!(d.animation_interval, 0);
    assert!(!d.animation);
    assert_eq!((d.x, d.y), (START_X, START_Y));
    assert_eq!(d.position, Point { x: 500, y: 300 });
}

#[test]
fn animation_changes_once_per_crossing() {
    let mut d = dancer();
    d.movement_interval = TIMER_UNIT;
    let roll = Roll { heading: Heading::east(), interval: 999_999_999 };
    // 1_000_000 steps of time are 60_000_000 timer steps
    d.update(1_000_000, roll);
    assert!(!d.animation);
    assert_eq!(d.animation_interval, 60_000_000);
    d.update(1_000_000, roll);
    assert!(d.animation);
    assert_eq!(d.animation_interval, 0);
    d.update(1_000_000, roll);
    assert!(d.animation);
    assert_eq!(d.animation_interval, 60_000_000);
    // a very long update still changes the frame once
    d.update(1_000_000_000, roll);
    assert!(!d.animation);
    assert_eq!(d.animation_interval, 0);
}

#[test]
fn animation_timer_at_the_period_does_not_change_the_frame() {
    let mut d = dancer();
    d.animation_interval = ANIMATION_PERIOD - 60;
    d.update(1, Roll { heading: Heading::east(), interval: 1 });
    assert!(!d.animation);
    assert_eq!(d.animation_interval, 100_000_000);
    d.update(1, Roll { heading: Heading::east(), interval: 1 });
    assert!(d.animation);
    assert_eq!(d.animation_interval, 0);
}

#[test]
fn right_wall_cuts_a_short_timer() {
    let mut d = dancer();
    d.x = MAX_X - 1;
    d.movement_interval = SIDE_WALL_BIAS - 1 + 60;
    let roll = Roll { heading: west(), interval: 777 };
    d.update(1, roll);
    // moved by 15 steps to the right, stopped at the wall
    assert_eq!(d.x, 976_000_000);
    assert_eq!(d.movement_interval, 0);
    assert_eq!(d.direction, Heading::east());
    d.update(1, roll);
    assert_eq!(d.direction, west());
    assert_eq!(d.movement_interval, 777);
}

#[test]
fn right_wall_leaves_a_long_timer() {
    let mut d = dancer();
    d.x = MAX_X - 1;
    d.movement_interval = SIDE_WALL_BIAS + 60;
    d.update(1, Roll { heading: west(), interval: 777 });
    assert_eq!(d.x, MAX_X);
    assert_eq!(d.movement_interval, 300_000_000);
}

#[test]
fn right_wall_cuts_a_rolled_timer() {
    let mut d = dancer();
    d.x = MAX_X;
    d.movement_interval = 0;
    d.update(1_000_000, Roll { heading: Heading::east(), interval: 299_999_999 });
    assert_eq!(d.x, MAX_X);
    assert_eq!(d.movement_interval, 0);
}

#[test]
fn bottom_wall_cuts_a_short_timer() {
    let mut d = dancer();
    d.y = MAX_Y - 1;
    d.direction = south();
    d.movement_interval = FLOOR_BIAS - 1 + 60;
    let roll = Roll { heading: north(), interval: 777 };
    d.update(1, roll);
    assert_eq!(d.y, 552_000_000);
    assert_eq!(d.movement_interval, 0);
    d.update(1, roll);
    assert_eq!(d.direction, north());
}

#[test]
fn bottom_wall_leaves_a_long_timer() {
    let mut d = dancer();
    d.y = MAX_Y - 1;
    d.direction = south();
    d.movement_interval = FLOOR_BIAS + 60;
    d.update(1, Roll { heading: north(), interval: 777 });
    assert_eq!(d.y, MAX_Y);
    assert_eq!(d.movement_interval, 500_000_000);
}

#[test]
fn left_and_top_walls_leave_the_timer() {
    let mut d = dancer();
    d.x = 3;
    d.y = 3;
    d.direction = Heading { angle: 225_000_000, cos: -707_107, sin: -707_107 };
    d.movement_interval = 1_000;
    d.update(10, Roll { heading: Heading::east(), interval: 777 });
    assert_eq!((d.x, d.y), (0, 0));
    assert_eq!(d.movement_interval, 400);
}

#[test]
fn update_keeps_the_label() {
    let mut d = Dancer::new(String::from("Dancer 42"), 81, 17);
    for i in 0..1000u64 {
        d.update(i * 1_000, Roll { heading: south(), interval: i });
        assert_eq!(d.name, "Dancer 42");
        assert_eq!((d.name_x, d.name_y), (81, 17));
    }
}

#[test]
fn validity_checks_say_what_is_well_formed() {
    assert!(Heading::east().is_valid());
    assert!(!Heading { angle: 360_000_000, cos: 0, sin: 0 }.is_valid());
    assert!(!Heading { angle: 0, cos: 1_000_001, sin: 0 }.is_valid());
    assert!(!Heading { angle: 0, cos: 0, sin: -1_000_001 }.is_valid());
    assert!(Roll { heading: west(), interval: 999_999_999 }.is_valid());
    assert!(!Roll { heading: west(), interval: 1_000_000_000 }.is_valid());
    assert!(west().faces_left());
    assert!(!Heading::east().faces_left());
    assert!(!south().faces_left());
}

#[test]
fn ten_updates_agree_with_the_formulas_in_real_numbers() {
    // the same ten updates, computed in floating point from the formulas
    let (mut x, mut y): (f64, f64) = (500.0, 300.0);
    let mut facing: f64 = 0.0;
    let mut movement: f64 = 1.0;
    let mut animation: f64 = 0.0;
    let mut toggled = false;
    let delta: f64 = 0.01;

    let mut d = dancer();
    d.movement_interval = TIMER_UNIT;
    let half: u64 = 1 << 63;
    let angle = scale(half, FULL_TURN as u64) as u32;
    let radians = (angle as f64 / 1_000_000.0).to_radians();
    let roll = Roll {
        heading: Heading {
            angle,
            cos: (radians.cos() * 1_000_000.0).round() as i32,
            sin: (radians.sin() * 1_000_000.0).round() as i32,
        },
        interval: scale(half, TIMER_UNIT),
    };
    assert!(roll.is_valid());

    for _ in 0..10 {
        movement -= delta * 60.0;
        animation += delta * 60.0;
        if movement < 0.0 {
            facing = 0.5 * 360.0;
            movement = 0.5;
        }
        if animation > 0.1 {
            toggled = !toggled;
            animation = 0.0;
        }
        x += facing.to_radians().cos() * delta * 15000.0;
        y += facing.to_radians().sin() * delta * 15000.0;
        if x < 0.0 {
            x = 0.0;
        } else if x > 976.0 {
            x = 976.0;
            if movement < 0.3 {
                movement = 0.0;
            }
        }
        if y < 0.0 {
            y = 0.0;
        } else if y > 552.0 {
            y = 552.0;
            if movement < 0.5 {
                movement = 0.0;
            }
        }

        d.update(10_000_000, roll);
        assert!((d.x as f64 / 1_000_000.0 - x).abs() < 0.000_001);
        assert!((d.y as f64 / 1_000_000.0 - y).abs() < 0.000_001);
        assert!((d.movement_interval as f64 / 1_000_000_000.0 - movement).abs() < 0.000_001);
        assert!((d.direction.angle as f64 / 1_000_000.0 - facing).abs() < 0.000_001);
        assert_eq!(d.animation, toggled);
        assert_eq!(d.position, Point { x: x as i32, y: y as i32 });
    }
    assert_eq!((d.x, d.y), (0, 300_000_000));
}
