use snake_game::snake::Segment;
use snake_game::snake::Snake;
use snake_game::snake::SnakeDirection;

fn seg(x: i32, y: i32) -> Segment {
    Segment { x, y }
}

#[test]
fn initial_body_layout() {
    let s = Snake::new();
    assert_eq!(s.direction, SnakeDirection::Right);
    assert_eq!(
        s.body,
        vec![seg(100, 100), seg(110, 100), seg(120, 100), seg(130, 100)]
    );
}

#[test]
fn scenario_one_advance_right() {
    let mut s = Snake::new();
    s.walk();
    assert_eq!(
        s.body,
        vec![seg(110, 100), seg(120, 100), seg(130, 100), seg(135, 100)]
    );
    assert_eq!(s.body.len(), 4);
    let head = s.body[3];
    assert_eq!(head.max_x(), 145);
    assert_eq!(head.max_y(), 110);
}

#[test]
fn scenario_reversal_rejected() {
    let mut s = Snake::new();
    assert_eq!(s.direction, SnakeDirection::Right);
    s.change_direction(SnakeDirection::Left);
    assert_eq!(s.direction, SnakeDirection::Right);
}

#[test]
fn scenario_perpendicular_accepted() {
    let mut s = Snake::new();
    assert_eq!(s.direction, SnakeDirection::Right);
    s.change_direction(SnakeDirection::Up);
    assert_eq!(s.direction, SnakeDirection::Up);
}

#[test]
fn same_direction_request_is_noop() {
    let mut s = Snake::new();
    let body_before = s.body.clone();
    s.change_direction(SnakeDirection::Right);
    assert_eq!(s.direction, SnakeDirection::Right);
    assert_eq!(s.body, body_before);
}

#[test]
fn reversal_rejected_for_every_heading() {
    let pairs = [
        (SnakeDirection::Up, SnakeDirection::Down),
        (SnakeDirection::Down, SnakeDirection::Up),
        (SnakeDirection::Left, SnakeDirection::Right),
        (SnakeDirection::Right, SnakeDirection::Left),
    ];
    for (current, reverse) in pairs {
        let mut s = Snake {
            direction: current,
            body: vec![seg(50, 50)],
        };
        s.change_direction(reverse);
        assert_eq!(s.direction, current);
    }
}

#[test]
fn head_displacement_each_direction() {
    let cases = [
        (SnakeDirection::Up, 0, -5),
        (SnakeDirection::Down, 0, 5),
        (SnakeDirection::Left, -5, 0),
        (SnakeDirection::Right, 5, 0),
    ];
    for (direction, dx, dy) in cases {
        let mut s = Snake {
            direction,
            body: vec![seg(40, 60), seg(50, 60)],
        };
        s.walk();
        assert_eq!(s.body.len(), 2);
        assert_eq!(s.body[0], seg(50, 60));
        assert_eq!(s.body[1], seg(50 + dx, 60 + dy));
    }
}

#[test]
fn length_invariance_over_many_steps() {
    let mut s = Snake::new();
    for i in 0..50 {
        if i % 7 == 0 {
            s.change_direction(SnakeDirection::Up);
        } else if i % 11 == 0 {
            s.change_direction(SnakeDirection::Right);
        }
        s.walk();
        assert_eq!(s.body.len(), 4);
    }
}

#[test]
fn walk_keeps_single_segment_body() {
    let mut s = Snake {
        direction: SnakeDirection::Down,
        body: vec![seg(30, 30)],
    };
    s.walk();
    assert_eq!(s.body, vec![seg(30, 35)]);
}
