use dbmod_tui3::err_tools::ErrorX;
use dbmod_tui3::screen::Screen;
use dbmod_tui3::text::{
    accept_index, completely_validate_input, decimal_string, newliner, quick_maker, tabber, validate_input,
};

#[test]
fn quick_maker_repeats() {
    assert_eq!(quick_maker(3, "ab"), "ababab");
    assert_eq!(quick_maker(1, "x"), "x");
}

#[test]
fn quick_maker_nothing_for_zero_or_less() {
    assert_eq!(quick_maker(0, "ab"), "");
    assert_eq!(quick_maker(-4, "ab"), "");
}

#[test]
fn newliner_and_tabber() {
    assert_eq!(newliner(2), "\n\n");
    assert_eq!(tabber(1), "\t");
    assert_eq!(newliner(-1), "");
}

#[test]
fn repeat_length_law_on_values() {
    assert_eq!(quick_maker(7, "abc").len(), 21);
}

#[test]
fn decimal_string_values() {
    assert_eq!(decimal_string(0), "0");
    assert_eq!(decimal_string(7), "7");
    assert_eq!(decimal_string(10), "10");
    assert_eq!(decimal_string(4095), "4095");
    assert_eq!(decimal_string(usize::MAX), usize::MAX.to_string());
}

#[test]
fn validate_input_accepts_index() {
    let list = vec![1, 2, 3];
    assert_eq!(validate_input("2", &list), Ok(2));
    assert_eq!(validate_input("0", &list), Ok(0));
    assert_eq!(validate_input("+1", &list), Ok(1));
    assert_eq!(validate_input("002", &list), Ok(2));
}

#[test]
fn validate_input_out_of_range() {
    let list = vec!['a', 'b'];
    assert_eq!(validate_input("2", &list), Err("Err: Input is not valid".to_string()));
    let empty: Vec<u8> = Vec::new();
    assert_eq!(validate_input("0", &empty), Err("Err: Input is not valid".to_string()));
}

#[test]
fn validate_input_parse_errors() {
    let list = vec![1, 2, 3];
    assert_eq!(validate_input("x", &list), Err("Err: invalid digit found in string".to_string()));
    assert_eq!(
        validate_input("", &list),
        Err("Err: cannot parse integer from empty string".to_string())
    );
    assert_eq!(validate_input("-1", &list), Err("Err: invalid digit found in string".to_string()));
    assert_eq!(validate_input(" 1", &list), Err("Err: invalid digit found in string".to_string()));
    assert_eq!(
        validate_input("999999999999999999999999", &list),
        Err("Err: number too large to fit in target type".to_string())
    );
}

#[test]
fn printed_index_law_on_values() {
    let list: Vec<u32> = (0..12).collect();
    for i in 0..12usize {
        assert_eq!(validate_input(&decimal_string(i), &list), Ok(i));
        assert_eq!(completely_validate_input(&list, Ok(decimal_string(i))), Ok(i));
    }
}

#[test]
fn completely_validate_input_cases() {
    let list = vec!["a", "b"];
    assert_eq!(completely_validate_input(&list, Ok("1".to_string())), Ok(1));
    assert_eq!(completely_validate_input(&list, Ok("\t".to_string())), Err("\t".to_string()));
    assert_eq!(
        completely_validate_input(&list, Err("read failed".to_string())),
        Err("read failed".to_string())
    );
    assert_eq!(
        completely_validate_input(&list, Ok("5".to_string())),
        Err("Err: Input is not valid".to_string())
    );
}

#[test]
fn screen_operations() {
    let mut screen = Screen::new();
    assert_eq!(screen.s, "");
    screen._concat("a");
    screen.concat_with_newlines("b", 1, 2);
    assert_eq!(screen.s, "a\nb\n\n");
    screen.concat_with_newlines("c", 0, 0);
    assert_eq!(screen.s, "a\nb\n\nc");
    screen.clear();
    assert_eq!(screen.s, "");
}

#[test]
fn error_x_message() {
    let e = ErrorX::_new("boom");
    assert_eq!(e.description(), "boom");
    assert_eq!(e.to_string(), "boom");
    let b = ErrorX::new_box("bad key");
    assert_eq!(b.description(), "bad key");
}

#[test]
fn accept_index_cases() {
    assert_eq!(accept_index(Ok(1), 3), Ok(1));
    assert_eq!(accept_index(Ok(3), 3), Err("Err: Input is not valid".to_string()));
    assert_eq!(accept_index(Err("oops".to_string()), 3), Err("Err: oops".to_string()));
}
