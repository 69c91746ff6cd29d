use talpid_core::normalize::{
    ensure_parameters_are_indexed, MsgString, Normalize, StringValue,
};

#[test]
fn normalize_android_string_value() {
    let input = StringValue::from_unescaped(
        &format!(
            "{}{}{}",
            "'Inside single quotes'",
            r#""Inside double quotes""#,
            "With parameters: %1$d, %2$s",
        ),
        None,
    );

    let expected = format!(
        "{}{}{}",
        "'Inside single quotes'",
        r#""Inside double quotes""#,
        "With parameters: %d, %s",
    );

    assert_eq!(input.normalize(), expected);
}

#[test]
fn normalize_gettext_msg_string() {
    let input = MsgString::from_escaped(&format!(
        "{}{}{}{}",
        "'Inside single quotes'",
        r"\'Inside escaped single quotes\'",
        r#"\"Inside double quotes\""#,
        "With parameters: %(number)d, %(string)s",
    ));

    let expected = format!(
        "{}{}{}{}",
        "'Inside single quotes'",
        "'Inside escaped single quotes'",
        r#""Inside double quotes""#,
        "With parameters: %d, %s",
    );

    assert_eq!(input.normalize(), expected);
}

#[test]
fn from_unescaped_escapes_quotes_backslashes_and_markup() {
    let value = StringValue::from_unescaped(r#"a 'b' "c" \ <d> & e"#, None);
    assert_eq!(value.0, r#"a \'b\' \"c\" \\ &lt;d&gt; &amp; e"#);
}

#[test]
fn from_unescaped_collapses_line_breaks() {
    let value = StringValue::from_unescaped("first  \n   second\nthird", None);
    assert_eq!(value.0, "first second third");
}

#[test]
fn normalize_keep_parameter_indices_keeps_indices() {
    let value = StringValue::from_unescaped("It's %1$d &lt; %2$s", None);
    assert_eq!(value.normalize_keep_parameter_indices(), "It's %1$d &lt; %2$s");
    assert_eq!(value.normalize(), "It's %d &lt; %s");
}

#[test]
fn normalize_unescapes_character_references() {
    let value = StringValue(String::from("1 &lt; 2 &amp;&amp; 3 &gt; 2"));
    assert_eq!(value.normalize(), "1 < 2 && 3 > 2");
}

#[test]
fn normalize_makes_both_origins_comparable() {
    let android = StringValue::from_unescaped("Don't wait %d days for \"%s\"", None);
    let gettext = MsgString::from_escaped(r#"Don\'t wait %(count)d days for \"%(name)s\""#);
    assert_eq!(android.normalize(), gettext.normalize());
}

#[test]
fn from_unescaped_indexes_parameters_by_their_place() {
    let value = StringValue::from_unescaped("Things are %d and %s", None);
    assert_eq!(value.0, "Things are %1$d and %2$s");
    assert_eq!(value.normalize(), "Things are %d and %s");

    // A parameter that has an index keeps it, and counts.
    let value = StringValue::from_unescaped("%2$s, %d and %10$s, then %s", None);
    assert_eq!(value.0, "%2$s, %2$d and %10$s, then %4$s");

    // Two percent signs stand for a percent sign and are no parameter.
    let value = StringValue::from_unescaped("100%% of %s, 5%", None);
    assert_eq!(value.0, "100%% of %1$s, 5%2$");

    // Digits without a dollar sign are no index.
    let value = StringValue::from_unescaped("%5d and %05.2f$", None);
    assert_eq!(value.0, "%1$5d and %2$05.2f$");

    assert_eq!(StringValue::from_unescaped("", None).0, "");
    assert_eq!(StringValue::from_unescaped("%", None).0, "%1$");
}

#[test]
fn from_unescaped_indexes_parameters_by_the_ordering() {
    let value = StringValue::from_unescaped("%s of %d", Some(vec![2, 1]));
    assert_eq!(value.0, "%2$s of %1$d");

    // Beyond the ordering, the place counts again.
    let value = StringValue::from_unescaped("%s, %s, %s", Some(vec![3]));
    assert_eq!(value.0, "%3$s, %2$s, %3$s");

    let value = StringValue::from_unescaped("%s and %3$s", Some(vec![-1, 7]));
    assert_eq!(value.0, "%-1$s and %3$s");

    let value = StringValue::from_unescaped("%s", Some(vec![-128]));
    assert_eq!(value.0, "%-128$s");
}

#[test]
fn ensure_parameters_are_indexed_reads_characters_not_bytes() {
    assert_eq!(
        ensure_parameters_are_indexed("Över %d dagar – %s", &None),
        "Över %1$d dagar – %2$s"
    );
}

#[test]
fn from_unescaped_escapes_only_what_markup_reserves() {
    let value = StringValue::from_unescaped("a & b < c > d; e = f", None);
    assert_eq!(value.0, "a &amp; b &lt; c &gt; d; e = f");
    let value = StringValue::from_unescaped("&&<<>>", None);
    assert_eq!(value.0, "&amp;&amp;&lt;&lt;&gt;&gt;");
    let value = StringValue::from_unescaped("é×😀", None);
    assert_eq!(value.0, "é×😀");
}
