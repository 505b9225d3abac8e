use sulis::label::Label;

#[test]
fn an_empty_label_has_no_text_of_its_own() {
    let label = Label::empty();
    assert_eq!(label.text, None);
    assert_eq!(label.get_name(), "label");
}

#[test]
fn a_label_holds_the_text_it_was_made_with() {
    let label = Label::new("Hello");
    assert_eq!(label.text, Some(String::from("Hello")));
    assert_eq!(Label::new("").text, Some(String::new()));
    assert_eq!(*Label::new("a"), Label { text: Some(String::from("a")) });
}
