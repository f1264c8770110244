use command_layer::greet;

#[test]
fn greet_world() {
    assert_eq!(greet("World"), "Hello, World! You've been greeted from the native layer!");
}

#[test]
fn greet_empty_name() {
    assert_eq!(greet(""), "Hello, ! You've been greeted from the native layer!");
}

#[test]
fn greet_embeds_name_verbatim() {
    let names = ["Ada Lovelace", "line\nbreak\tand\x07bell", "", "\u{1F642} smile"];
    for name in names {
        let message = greet(name);
        assert!(message.contains(name));
        assert!(message.starts_with("Hello, "));
    }
}
