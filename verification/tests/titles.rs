use write_only::page::{base, ul, Title};

fn add(s: &str) -> Title {
    Title::Add(s.to_string())
}

fn replace(s: &str) -> Title {
    Title::Replace(s.to_string())
}

#[test]
fn title_add_nothing_to_nothing() {
    assert_eq!(Title::Nothing.add(Title::Nothing, "|"), Title::Nothing);
}

#[test]
fn title_add_keeps_the_one_that_is_something() {
    assert_eq!(Title::Nothing.add(add("a"), "|"), add("a"));
    assert_eq!(Title::Nothing.add(replace("a"), "|"), replace("a"));
    assert_eq!(add("a").add(Title::Nothing, "|"), add("a"));
    assert_eq!(replace("a").add(Title::Nothing, "|"), replace("a"));
}

#[test]
fn title_add_puts_the_child_in_front() {
    assert_eq!(add("site").add(add("page"), "|"), add("page | site"));
    assert_eq!(replace("site").add(add("page"), "-"), replace("page - site"));
}

#[test]
fn title_add_replacing_child_takes_the_place() {
    assert_eq!(add("site").add(replace("404"), "|"), add("404"));
    assert_eq!(replace("site").add(replace("404"), "|"), replace("404"));
}

#[test]
fn title_text_starts_with_the_moon() {
    assert_eq!(Title::Nothing.to_text(), "🌘 ");
    assert_eq!(add("a b").to_text(), "🌘 a b");
    assert_eq!(replace("404").to_text(), "🌘 404");
}

#[test]
fn base_frames_the_content() {
    assert_eq!(
        base("<p>hi</p>"),
        "<!doctype html>
        <html>
            <head>
                <title>write-only.space</title>
            </head>
            <body>
                <p>hi</p>
            </body>
        </html>
        "
    );
}

#[test]
fn ul_of_nothing() {
    let none: Vec<u8> = Vec::new();
    assert_eq!(ul(none, |n| n.to_string()), "<ul></ul>");
}

#[test]
fn ul_shows_items_in_order() {
    assert_eq!(
        ul(vec![3u8, 1, 2], |n| n.to_string()),
        "<ul><li>3</li><li>1</li><li>2</li></ul>"
    );
    assert_eq!(
        ul(vec!["a".to_string()], |s| s.to_uppercase()),
        "<ul><li>A</li></ul>"
    );
}
