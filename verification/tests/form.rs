use zero2prod::form::{Field, FormData, FormError};

fn pairs(items: &[(&str, &str)]) -> Vec<(String, String)> {
    items.iter().map(|(k, v)| (k.to_string(), v.to_string())).collect()
}

fn form(email: &str, name: &str) -> FormData {
    FormData { email: email.to_string(), name: name.to_string() }
}

#[test]
fn parse_decodes_percent_escapes() {
    assert_eq!(
        FormData::parse(b"name=le%20guin&email=ursula_le_guin%40gmail.com"),
        Ok(form("ursula_le_guin@gmail.com", "le guin"))
    );
}

#[test]
fn parse_decodes_plus_as_space() {
    assert_eq!(FormData::parse(b"email=a%40b.c&name=le+guin"), Ok(form("a@b.c", "le guin")));
}

#[test]
fn parse_decodes_keys_too() {
    assert_eq!(FormData::parse(b"%65mail=a&n%61me=b"), Ok(form("a", "b")));
}

#[test]
fn parse_accepts_either_order() {
    assert_eq!(FormData::parse(b"email=e&name=n"), Ok(form("e", "n")));
    assert_eq!(FormData::parse(b"name=n&email=e"), Ok(form("e", "n")));
}

#[test]
fn parse_ignores_other_keys() {
    assert_eq!(FormData::parse(b"a=1&email=e&b=2&name=n&email2=x"), Ok(form("e", "n")));
}

#[test]
fn parse_accepts_empty_values() {
    assert_eq!(FormData::parse(b"email=&name="), Ok(form("", "")));
    assert_eq!(FormData::parse(b"email&name"), Ok(form("", "")));
}

#[test]
fn parse_reports_missing_email_first() {
    assert_eq!(FormData::parse(b""), Err(FormError::MissingField(Field::Email)));
    assert_eq!(FormData::parse(b"name=le%20guin"), Err(FormError::MissingField(Field::Email)));
    assert_eq!(FormData::parse(b"&&"), Err(FormError::MissingField(Field::Email)));
}

#[test]
fn parse_reports_missing_name() {
    assert_eq!(
        FormData::parse(b"email=ursula_le_guin%40gmail.com"),
        Err(FormError::MissingField(Field::Name))
    );
}

#[test]
fn parse_reports_the_earliest_repetition() {
    assert_eq!(
        FormData::parse(b"email=a&email=b&name=c"),
        Err(FormError::DuplicateField(Field::Email))
    );
    assert_eq!(
        FormData::parse(b"name=a&email=b&name=c&email=d"),
        Err(FormError::DuplicateField(Field::Name))
    );
    assert_eq!(
        FormData::parse(b"name=a&email=b&email=c&name=d"),
        Err(FormError::DuplicateField(Field::Email))
    );
}

#[test]
fn parse_reports_a_repetition_before_a_missing_field() {
    assert_eq!(FormData::parse(b"name=a&name=b"), Err(FormError::DuplicateField(Field::Name)));
    assert_eq!(
        FormData::parse(b"email=a&email=a"),
        Err(FormError::DuplicateField(Field::Email))
    );
}

#[test]
fn keys_are_case_sensitive() {
    assert_eq!(
        FormData::parse(b"Email=a&name=b"),
        Err(FormError::MissingField(Field::Email))
    );
}

#[test]
fn from_pairs_takes_values_verbatim() {
    let given = pairs(&[("name", " le guin "), ("email", "URSULA@example.com")]);

    assert_eq!(FormData::from_pairs(&given), Ok(form("URSULA@example.com", " le guin ")));
}

#[test]
fn from_pairs_of_nothing_misses_the_email() {
    assert_eq!(FormData::from_pairs(&pairs(&[])), Err(FormError::MissingField(Field::Email)));
}

#[test]
fn from_pairs_agrees_with_parse() {
    let given = pairs(&[("x", "1"), ("name", "n"), ("email", "e")]);

    assert_eq!(FormData::from_pairs(&given), FormData::parse(b"x=1&name=n&email=e"));
}
