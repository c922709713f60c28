use contcont::form::{field_kind, ArtForm, FormError, FormField};

#[test]
fn field_names_map_to_parts() {
    assert_eq!(field_kind("title"), FormField::Title);
    assert_eq!(field_kind("description"), FormField::Description);
    assert_eq!(field_kind("isNsfw"), FormField::IsNsfw);
    assert_eq!(field_kind("data"), FormField::Data);
    assert_eq!(field_kind("isnsfw"), FormField::Other);
    assert_eq!(field_kind(""), FormField::Other);
}

#[test]
fn complete_form_gives_entry() {
    let mut form = ArtForm::new();
    form.set_text(FormField::Title, "old".to_string());
    form.set_text(FormField::Title, "Pic".to_string());
    form.set_text(FormField::Description, "about".to_string());
    form.set_text(FormField::IsNsfw, "true".to_string());
    form.set_text(FormField::Other, "ignored".to_string());
    form.set_data(vec![9, 8, 7]);
    let entry = form.finish().unwrap();
    assert_eq!(entry.title, "Pic");
    assert_eq!(entry.text, "about");
    assert!(entry.is_nsfw);
    assert_eq!(entry.data, vec![9, 8, 7]);
}

#[test]
fn nsfw_flag_needs_exact_true() {
    let mut form = ArtForm::new();
    form.set_text(FormField::IsNsfw, "TRUE".to_string());
    assert_eq!(form.is_nsfw, Some(false));
    form.set_text(FormField::IsNsfw, "true".to_string());
    assert_eq!(form.is_nsfw, Some(true));
}

#[test]
fn first_missing_part_is_reported() {
    let form = ArtForm::new();
    assert_eq!(form.finish().unwrap_err(), FormError::MissingTitle);
    let mut form = ArtForm::new();
    form.set_text(FormField::Title, "t".to_string());
    form.set_data(vec![1]);
    assert_eq!(form.finish().unwrap_err(), FormError::MissingDescription);
    let mut form = ArtForm::new();
    form.set_text(FormField::Title, "t".to_string());
    form.set_text(FormField::Description, "d".to_string());
    assert_eq!(form.finish().unwrap_err(), FormError::MissingIsNsfw);
    let mut form = ArtForm::new();
    form.set_text(FormField::Title, "t".to_string());
    form.set_text(FormField::Description, "d".to_string());
    form.set_text(FormField::IsNsfw, "false".to_string());
    let err = form.finish().unwrap_err();
    assert_eq!(err, FormError::MissingData);
    assert_eq!(err.message(), "data not found");
}
