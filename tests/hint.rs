use dotm::hint::Hint;

#[test]
fn hint_display() {
    let hint = Hint::builder().with_title("This is a test title").build();
    println!("{}", hint.render())
}

#[test]
fn hint_display_too_long() {
    let hint = Hint::builder()
        .with_title("This is a super duper long test title which overflows the max width")
        .with_before_text("This appears after the title and should be indented with 2 spaces")
        .build();

    println!("{}", hint.render())
}

#[test]
fn render_title_only() {
    let hint = Hint::builder().with_title("Title").build();
    assert_eq!(hint.render(), "Title\n\n\n");
}

#[test]
fn render_all_parts() {
    let hint = Hint::builder()
        .with_title("T")
        .with_before_text("before")
        .with_after_text("after")
        .with_items(vec!["one".to_string(), "two".to_string()])
        .build();
    assert_eq!(hint.render(), "T\n\nbefore\n\none\ntwo\n");
    assert_eq!(hint.after_text, "after");
    assert_eq!(hint.max_width(), 80);
}

#[test]
fn new_hint_is_empty() {
    let hint = Hint::new();
    assert_eq!(hint.title, "");
    assert!(hint.items.is_empty());
    assert_eq!(hint.render(), "\n\n\n");
}
