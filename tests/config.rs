use fancytree::color::{AnsiColor, Color};
use fancytree::config::{color_or_default, icon_or_default, EntryError};

#[test]
fn icon_answer_is_used() {
    assert_eq!(icon_or_default("a.rs", Ok(Some("R".to_string())), "F"), Ok("R".to_string()));
}

#[test]
fn nil_icon_falls_back_to_default() {
    assert_eq!(icon_or_default("a.rs", Ok(None), "F"), Ok("F".to_string()));
}

#[test]
fn failing_icon_script_names_the_path() {
    assert_eq!(
        icon_or_default("src/a.rs", Err("boom".to_string()), "F"),
        Err(EntryError { path: "src/a.rs".to_string(), message: "boom".to_string() })
    );
}

#[test]
fn color_answers_and_fallback() {
    let red = Some(Color::Ansi(AnsiColor::Red));
    let rgb = Color::Rgb(1, 2, 3);
    assert_eq!(color_or_default("x", Ok(Some(rgb)), red), Ok(Some(rgb)));
    assert_eq!(color_or_default("x", Ok(None), red), Ok(red));
    assert_eq!(color_or_default("x", Ok(None), None), Ok(None));
    let err = color_or_default("dir/x", Err("bad".to_string()), red).unwrap_err();
    assert_eq!(err.path, "dir/x");
    assert_eq!(err.message, "bad");
}
