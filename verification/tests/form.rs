use notepad::form::DraftForm;

#[test]
fn a_new_form_is_closed_and_empty() {
    let form = DraftForm::new();
    assert!(!form.is_visible());
    assert!(!form.shows_error());
    assert_eq!(form.title(), "");
    assert_eq!(form.content(), "");
}

#[test]
fn open_shows_an_empty_draft() {
    let mut form = DraftForm::new();
    form.open();
    assert!(form.is_visible());
    assert!(!form.shows_error());
    assert_eq!(form.title(), "");
    assert_eq!(form.content(), "");
}

#[test]
fn fields_take_the_text_as_typed() {
    let mut form = DraftForm::new();
    form.open();
    form.set_title("G".to_string());
    form.set_title("Gr".to_string());
    form.set_content(" x ".to_string());
    assert_eq!(form.title(), "Gr");
    assert_eq!(form.content(), " x ");
    assert!(form.is_visible());
    assert!(!form.shows_error());
    form.set_title(String::new());
    assert_eq!(form.title(), "");
    assert_eq!(form.content(), " x ");
}

#[test]
fn a_closed_form_has_no_field_to_edit() {
    let mut form = DraftForm::new();
    form.set_title("A".to_string());
    form.set_content("B".to_string());
    assert_eq!(form.title(), "");
    assert_eq!(form.content(), "");
    assert!(!form.is_visible());
}

#[test]
fn submit_without_a_title_is_turned_down() {
    let mut form = DraftForm::new();
    form.open();
    form.set_content("body".to_string());
    assert!(form.submit().is_none());
    assert!(form.shows_error());
    assert!(form.is_visible());
    assert_eq!(form.title(), "");
    assert_eq!(form.content(), "body");
}

#[test]
fn submit_without_a_body_is_turned_down() {
    let mut form = DraftForm::new();
    form.open();
    form.set_title("title".to_string());
    assert!(form.submit().is_none());
    assert!(form.shows_error());
    assert!(form.is_visible());
    assert_eq!(form.title(), "title");
    assert_eq!(form.content(), "");
}

#[test]
fn submit_of_an_empty_draft_is_turned_down() {
    let mut form = DraftForm::new();
    form.open();
    assert!(form.submit().is_none());
    assert!(form.shows_error());
    assert!(form.is_visible());
}

#[test]
fn submit_of_a_complete_draft_hands_out_the_note() {
    let mut form = DraftForm::new();
    form.open();
    form.set_title("A".to_string());
    form.set_content("B".to_string());
    let made = form.submit();
    assert!(made.is_some());
    let made = made.unwrap();
    assert_eq!(made.title(), "A");
    assert_eq!(made.content(), "B");
    assert!(!form.is_visible());
    assert!(!form.shows_error());
    assert_eq!(form.title(), "");
    assert_eq!(form.content(), "");
}

#[test]
fn submit_takes_blanks_for_text() {
    let mut form = DraftForm::new();
    form.open();
    form.set_title(" ".to_string());
    form.set_content("\t".to_string());
    let made = form.submit().unwrap();
    assert_eq!(made.title(), " ");
    assert_eq!(made.content(), "\t");
    assert!(!form.is_visible());
}

#[test]
fn submit_after_a_complaint_clears_it() {
    let mut form = DraftForm::new();
    form.open();
    form.set_title("A".to_string());
    assert!(form.submit().is_none());
    assert!(form.shows_error());
    form.set_content("B".to_string());
    assert!(form.shows_error());
    let made = form.submit().unwrap();
    assert_eq!(made.title(), "A");
    assert_eq!(made.content(), "B");
    assert!(!form.shows_error());
    assert!(!form.is_visible());
}

#[test]
fn submit_on_a_closed_form_only_complains() {
    let mut form = DraftForm::new();
    assert!(form.submit().is_none());
    assert!(form.shows_error());
    assert!(!form.is_visible());
    assert_eq!(form.title(), "");
    assert_eq!(form.content(), "");
}

#[test]
fn cancel_closes_and_drops_the_draft() {
    let mut form = DraftForm::new();
    form.open();
    form.set_title("A".to_string());
    form.set_content("B".to_string());
    form.cancel();
    assert!(!form.is_visible());
    assert!(!form.shows_error());
    assert_eq!(form.title(), "");
    assert_eq!(form.content(), "");
}

#[test]
fn cancel_clears_the_complaint() {
    let mut form = DraftForm::new();
    form.open();
    assert!(form.submit().is_none());
    assert!(form.shows_error());
    form.cancel();
    assert!(!form.shows_error());
    assert!(!form.is_visible());
}

#[test]
fn open_after_a_complaint_starts_afresh() {
    let mut form = DraftForm::new();
    form.open();
    form.set_title("kept?".to_string());
    assert!(form.submit().is_none());
    form.open();
    assert!(form.is_visible());
    assert!(!form.shows_error());
    assert_eq!(form.title(), "");
    assert_eq!(form.content(), "");
}
