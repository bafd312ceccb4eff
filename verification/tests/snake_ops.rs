use snake::direction::Direction;
use snake::pos::Pos;
use snake::snake::Snake;

#[test]
fn snake_diff() {
    let s1 = Snake::new(10, 10);
    let s2 = Snake::new(11, 27);
    assert_eq!(s1.dif(&s2), vec![Pos { x: 10, y: 10 }]);
    assert_eq!(s2.dif(&s2), vec![]);
    assert_eq!(s2.dif(&s1), vec![Pos { x: 11, y: 27 }]);
}

#[test]
fn diff_of_overlapping_snakes_is_disjoint() {
    let a = Snake {
        internal: vec![
            Pos { x: 10, y: 10 },
            Pos { x: 9, y: 10 },
            Pos { x: 8, y: 10 },
        ],
    };
    let b = Snake {
        internal: vec![
            Pos { x: 11, y: 10 },
            Pos { x: 10, y: 10 },
            Pos { x: 9, y: 10 },
        ],
    };
    let ab = a.dif(&b);
    let ba = b.dif(&a);
    assert_eq!(ab, vec![Pos { x: 8, y: 10 }]);
    assert_eq!(ba, vec![Pos { x: 11, y: 10 }]);
    for p in &ab {
        assert!(!ba.contains(p));
    }
}

#[test]
fn self_difference_is_empty() {
    let a = Snake {
        internal: vec![
            Pos { x: 4, y: 5 },
            Pos { x: 4, y: 6 },
            Pos { x: 5, y: 6 },
        ],
    };
    assert_eq!(a.dif(&a), vec![]);
}

#[test]
fn head_and_contains() {
    let s = Snake {
        internal: vec![Pos { x: 3, y: 4 }, Pos { x: 3, y: 5 }],
    };
    assert_eq!(s.head(), Pos { x: 3, y: 4 });
    assert!(s.contains(Pos { x: 3, y: 5 }));
    assert!(!s.contains(Pos { x: 4, y: 4 }));
}

#[test]
fn advance_without_eating_keeps_length() {
    let mut s = Snake::new(10, 10);
    let ate = s.move_in(Direction::Right, Pos { x: 40, y: 20 });
    assert!(!ate);
    assert_eq!(s.internal, vec![Pos { x: 11, y: 10 }]);
}

#[test]
fn advance_eating_grows_by_one() {
    let mut s = Snake::new(10, 10);
    let ate = s.move_in(Direction::Right, Pos { x: 11, y: 10 });
    assert!(ate);
    assert_eq!(s.internal, vec![Pos { x: 11, y: 10 }, Pos { x: 10, y: 10 }]);
    // A second, non-eating advance: length stays at two.
    let ate2 = s.move_in(Direction::Down, Pos { x: 40, y: 20 });
    assert!(!ate2);
    assert_eq!(s.internal, vec![Pos { x: 11, y: 11 }, Pos { x: 11, y: 10 }]);
}

#[test]
fn advance_each_direction() {
    let mut s = Snake::new(10, 10);
    s.move_in(Direction::Up, Pos { x: 1, y: 1 });
    assert_eq!(s.head(), Pos { x: 10, y: 9 });
    let mut s = Snake::new(10, 10);
    s.move_in(Direction::Down, Pos { x: 1, y: 1 });
    assert_eq!(s.head(), Pos { x: 10, y: 11 });
    let mut s = Snake::new(10, 10);
    s.move_in(Direction::Left, Pos { x: 1, y: 1 });
    assert_eq!(s.head(), Pos { x: 9, y: 10 });
}

#[test]
fn move_to_prepends_and_optionally_drops_tail() {
    let mut s = Snake::new(5, 5);
    s.move_to(Pos { x: 6, y: 5 }, false);
    assert_eq!(s.internal, vec![Pos { x: 6, y: 5 }, Pos { x: 5, y: 5 }]);
    s.move_to(Pos { x: 7, y: 5 }, true);
    assert_eq!(s.internal, vec![Pos { x: 7, y: 5 }, Pos { x: 6, y: 5 }]);
}

#[test]
fn snapshot_copies_every_cell() {
    let s = Snake {
        internal: vec![Pos { x: 1, y: 3 }, Pos { x: 2, y: 3 }],
    };
    let t = s.snapshot();
    assert_eq!(t.internal, s.internal);
}
