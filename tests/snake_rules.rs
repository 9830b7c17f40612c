use snake::geometry::{Borders, Position};
use snake::snake::{Direction, Snake};

const ALL: [Direction; 5] = [
    Direction::Up,
    Direction::Down,
    Direction::Left,
    Direction::Right,
    Direction::Unset,
];

fn pos(x: u16, y: u16) -> Position {
    Position { x, y }
}

fn field() -> Borders {
    Borders { w: 800, h: 600 }
}

fn positions(s: &Snake) -> Vec<Position> {
    s.segments.iter().map(|seg| seg.position).collect()
}

fn reversal(a: Direction, b: Direction) -> bool {
    matches!(
        (a, b),
        (Direction::Up, Direction::Down)
            | (Direction::Down, Direction::Up)
            | (Direction::Left, Direction::Right)
            | (Direction::Right, Direction::Left)
    )
}

#[test]
fn new_snake_has_one_segment_and_no_heading() {
    let s = Snake::new(pos(100, 150), field());
    assert_eq!(s.length, 0);
    assert_eq!(s.position, pos(100, 150));
    assert_eq!(positions(&s), vec![pos(100, 150)]);
    assert_eq!(s.direction, Direction::Unset);
    assert_eq!(s.speed, 50);
}

#[test]
fn change_direction_refuses_exactly_the_reversals() {
    for from in ALL {
        for to in ALL {
            let mut s = Snake::new(pos(0, 0), field());
            s.direction = from;
            s.change_direction(to);
            let expected = if reversal(from, to) { from } else { to };
            assert_eq!(s.direction, expected, "{:?} -> {:?}", from, to);
        }
    }
}

#[test]
fn change_direction_twice_is_once() {
    for from in ALL {
        for to in ALL {
            let mut once = Snake::new(pos(0, 0), field());
            once.direction = from;
            once.change_direction(to);
            let mut twice = Snake::new(pos(0, 0), field());
            twice.direction = from;
            twice.change_direction(to);
            twice.change_direction(to);
            assert_eq!(once.direction, twice.direction);
        }
    }
}

#[test]
fn from_unset_every_heading_is_taken() {
    for to in ALL {
        let mut s = Snake::new(pos(0, 0), field());
        s.change_direction(to);
        assert_eq!(s.direction, to);
    }
}

#[test]
fn move_forward_one_cell_each_way() {
    let cases = [
        (Direction::Up, pos(200, 150)),
        (Direction::Down, pos(200, 250)),
        (Direction::Left, pos(150, 200)),
        (Direction::Right, pos(250, 200)),
        (Direction::Unset, pos(200, 200)),
    ];
    for (d, expected) in cases {
        let mut s = Snake::new(pos(200, 200), field());
        s.change_direction(d);
        s.move_forward();
        assert_eq!(s.position, expected);
        assert_eq!(positions(&s), vec![expected]);
        assert_eq!(s.length, 0);
    }
}

#[test]
fn move_forward_clamps_at_zero() {
    let mut s = Snake::new(pos(0, 0), field());
    s.change_direction(Direction::Up);
    s.move_forward();
    assert_eq!(s.position, pos(0, 0));
    s.change_direction(Direction::Left);
    s.move_forward();
    assert_eq!(s.position, pos(0, 0));
    let mut t = Snake::new(pos(30, 20), field());
    t.change_direction(Direction::Left);
    t.move_forward();
    assert_eq!(t.position, pos(0, 20));
}

#[test]
fn move_forward_clamps_at_the_largest_value() {
    let mut s = Snake::new(pos(0, 65500), field());
    s.change_direction(Direction::Down);
    s.move_forward();
    assert_eq!(s.position, pos(0, u16::MAX));
    s.move_forward();
    assert_eq!(s.position, pos(0, u16::MAX));
}

#[test]
fn move_forward_leaves_the_field_through_the_right_edge() {
    let mut s = Snake::new(pos(750, 0), field());
    s.change_direction(Direction::Right);
    s.move_forward();
    assert_eq!(s.position, pos(800, 0));
    s.move_forward();
    assert_eq!(s.position, pos(850, 0));
}

#[test]
fn move_forward_holds_the_head_outside_both_bounds() {
    let mut s = Snake::new(pos(850, 650), field());
    s.change_direction(Direction::Up);
    s.move_forward();
    assert_eq!(s.position, pos(850, 650));
    assert_eq!(positions(&s), vec![pos(850, 650)]);
}

#[test]
fn move_forward_shifts_the_body() {
    let mut s = Snake::new(pos(100, 100), field());
    s.grow(pos(150, 100));
    s.grow(pos(200, 100));
    s.change_direction(Direction::Down);
    s.move_forward();
    assert_eq!(s.length, 2);
    assert_eq!(s.position, pos(100, 150));
    assert_eq!(positions(&s), vec![pos(150, 100), pos(200, 100), pos(100, 150)]);
}

#[test]
fn grow_appends_at_the_given_position() {
    let mut s = Snake::new(pos(0, 0), field());
    s.change_direction(Direction::Right);
    s.grow(pos(300, 250));
    assert_eq!(s.length, 1);
    assert_eq!(s.position, pos(0, 0));
    assert_eq!(s.direction, Direction::Right);
    assert_eq!(positions(&s), vec![pos(0, 0), pos(300, 250)]);
}

#[test]
fn hits_itself_ignores_the_head_index() {
    let mut s = Snake::new(pos(100, 100), field());
    s.grow(pos(100, 100));
    assert!(s.hits_itself());
    let mut t = Snake::new(pos(100, 100), field());
    t.grow(pos(50, 100));
    t.change_direction(Direction::Right);
    t.move_forward();
    assert_eq!(positions(&t), vec![pos(50, 100), pos(150, 100)]);
    assert!(!t.hits_itself());
    let u = Snake::new(pos(100, 100), field());
    assert!(!u.hits_itself());
}
