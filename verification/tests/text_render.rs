use snake::pos::Pos;
use snake::render::{goto_string, render_header, render_step};
use snake::step::Step;
use snake::text::{
    border_row, push_decimal, score_line, self_intercept_message, sides_message,
    top_bottom_message,
};

#[test]
fn decimal_rendering() {
    assert_eq!(push_decimal(String::new(), 0), "0");
    assert_eq!(push_decimal(String::new(), 7), "7");
    assert_eq!(push_decimal(String::new(), 10), "10");
    assert_eq!(push_decimal(String::new(), 65535), "65535");
    assert_eq!(push_decimal(String::from("x="), 42), "x=42");
}

#[test]
fn game_over_messages() {
    assert_eq!(
        self_intercept_message(Pos { x: 10, y: 10 }),
        "Self intercept at (10, 10)"
    );
    assert_eq!(
        top_bottom_message(40, Pos { x: 23, y: 10 }),
        "Broke out the top(40) or bottom at (23, 10)"
    );
    assert_eq!(sides_message(), "Broke out the sides");
}

#[test]
fn score_and_border() {
    assert_eq!(score_line(0), "Apples: 0");
    assert_eq!(score_line(12345), "Apples: 12345");
    assert_eq!(border_row(5), "====");
    assert_eq!(border_row(1), "");
    assert_eq!(border_row(0), "");
}

#[test]
fn cursor_moves_put_the_row_first() {
    assert_eq!(goto_string(Pos { x: 3, y: 7 }), "\x1B[7;3H");
    assert_eq!(goto_string(Pos { x: 1, y: 1 }), "\x1B[1;1H");
}

#[test]
fn render_continuing_paints_delta_then_apple() {
    let step = Step::Continuing {
        diff_add: vec![Pos { x: 2, y: 3 }],
        diff_neg: vec![Pos { x: 1, y: 3 }],
        apple: Some(Pos { x: 5, y: 5 }),
    };
    assert_eq!(render_step(&step, 40, 20), "\x1B[3;2H#\x1B[3;1H \x1B[5;5H@");
}

#[test]
fn render_continuing_without_apple() {
    let step = Step::Continuing {
        diff_add: vec![],
        diff_neg: vec![Pos { x: 9, y: 4 }, Pos { x: 8, y: 4 }],
        apple: None,
    };
    assert_eq!(render_step(&step, 40, 20), "\x1B[4;9H \x1B[4;8H ");
}

#[test]
fn render_done_centers_the_message() {
    let step = Step::Done { message: String::from("hi") };
    assert_eq!(render_step(&step, 40, 20), "\x1B[10;19Hhi\n");
}

#[test]
fn render_quit_writes_nothing() {
    assert_eq!(render_step(&Step::Quit, 40, 20), "");
}

#[test]
fn render_header_rewrites_score_and_border() {
    assert_eq!(render_header(3, 5), "\x1B[1;1HApples: 3\x1B[2;1H====");
}

#[test]
fn step_predicate() {
    let cont = Step::Continuing { diff_add: vec![], diff_neg: vec![], apple: None };
    assert!(cont.is_continuing());
    assert!(!Step::Quit.is_continuing());
    let done = Step::Done { message: String::from("x") };
    assert!(!done.is_continuing());
}
