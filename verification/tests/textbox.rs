use device_cost::textbox::Textbox;

fn typed(text: &str) -> Textbox {
    let mut textbox = Textbox::new();
    for c in text.chars() {
        textbox.enter_char(c);
    }
    textbox
}

#[test]
fn new_textbox_is_empty_with_the_cursor_at_the_start() {
    let textbox = Textbox::new();
    assert_eq!(textbox.input(), "");
    assert_eq!(textbox.cursor(), 0);
}

#[test]
fn entering_five_then_zero_gives_fifty() {
    let mut textbox = Textbox::new();
    textbox.enter_char('5');
    textbox.enter_char('0');
    assert_eq!(textbox.input(), "50");
    assert_eq!(textbox.cursor(), 2);
}

#[test]
fn delete_after_moving_left_removes_the_character_before_the_cursor() {
    let mut textbox = typed("50");
    textbox.move_cursor_left();
    assert_eq!(textbox.cursor(), 1);
    textbox.delete_char();
    assert_eq!(textbox.input(), "0");
    assert_eq!(textbox.cursor(), 0);
}

#[test]
fn delete_at_the_start_changes_nothing() {
    let mut textbox = typed("0");
    textbox.move_cursor_left();
    assert_eq!(textbox.cursor(), 0);
    textbox.delete_char();
    assert_eq!(textbox.input(), "0");
    assert_eq!(textbox.cursor(), 0);
}

#[test]
fn delete_on_an_empty_textbox_changes_nothing() {
    let mut textbox = Textbox::new();
    textbox.delete_char();
    assert_eq!(textbox.input(), "");
    assert_eq!(textbox.cursor(), 0);
}

#[test]
fn delete_at_the_end_removes_the_last_character() {
    let mut textbox = typed("12.5");
    textbox.delete_char();
    assert_eq!(textbox.input(), "12.");
    assert_eq!(textbox.cursor(), 3);
}

#[test]
fn cursor_stops_at_the_start() {
    let mut textbox = typed("ab");
    textbox.move_cursor_left();
    textbox.move_cursor_left();
    textbox.move_cursor_left();
    assert_eq!(textbox.cursor(), 0);
    assert_eq!(textbox.input(), "ab");
}

#[test]
fn cursor_stops_at_the_end() {
    let mut textbox = typed("ab");
    textbox.move_cursor_right();
    assert_eq!(textbox.cursor(), 2);
    textbox.move_cursor_left();
    textbox.move_cursor_right();
    textbox.move_cursor_right();
    assert_eq!(textbox.cursor(), 2);
    assert_eq!(textbox.input(), "ab");
}

#[test]
fn cursor_does_not_move_right_in_an_empty_textbox() {
    let mut textbox = Textbox::new();
    textbox.move_cursor_right();
    assert_eq!(textbox.cursor(), 0);
}

#[test]
fn characters_are_inserted_at_the_cursor() {
    let mut textbox = typed("15");
    textbox.move_cursor_left();
    textbox.enter_char('.');
    assert_eq!(textbox.input(), "1.5");
    assert_eq!(textbox.cursor(), 2);
    textbox.move_cursor_left();
    textbox.move_cursor_left();
    textbox.enter_char('-');
    assert_eq!(textbox.input(), "-1.5");
    assert_eq!(textbox.cursor(), 1);
}

#[test]
fn cursor_counts_characters_and_not_bytes() {
    let mut textbox = typed("kühl");
    assert_eq!(textbox.cursor(), 4);
    assert_eq!(textbox.input().len(), 5);
    textbox.move_cursor_left();
    textbox.move_cursor_left();
    textbox.enter_char('€');
    assert_eq!(textbox.input(), "kü€hl");
    assert_eq!(textbox.cursor(), 3);
    textbox.move_cursor_left();
    textbox.delete_char();
    assert_eq!(textbox.input(), "k€hl");
    assert_eq!(textbox.cursor(), 1);
    textbox.move_cursor_right();
    textbox.delete_char();
    assert_eq!(textbox.input(), "khl");
    assert_eq!(textbox.cursor(), 1);
}

#[test]
fn delete_undoes_enter() {
    let mut textbox = typed("watt");
    textbox.move_cursor_left();
    textbox.move_cursor_left();
    textbox.enter_char('x');
    textbox.delete_char();
    assert_eq!(textbox.input(), "watt");
    assert_eq!(textbox.cursor(), 2);
}

#[test]
fn cursor_never_leaves_the_text() {
    let mut textbox = Textbox::new();
    let keys = "e5lrdd0el.rrdl7e";
    for key in keys.chars() {
        match key {
            'l' => textbox.move_cursor_left(),
            'r' => textbox.move_cursor_right(),
            'd' => textbox.delete_char(),
            c => textbox.enter_char(c),
        }
        assert!(textbox.cursor() <= textbox.input().chars().count());
    }
}
