use debloat::{package_names, records_from_names};

#[test]
fn listing_lines_are_trimmed_lowered_and_blank_lines_dropped() {
    let names = package_names("Microsoft.XboxApp\r\n  Clipchamp.Clipchamp \n\n\t\nMSTeams");
    assert_eq!(names, vec!["microsoft.xboxapp", "clipchamp.clipchamp", "msteams"]);
}

#[test]
fn empty_listing_has_no_names() {
    assert!(package_names("").is_empty());
    assert!(package_names("\n \r\n").is_empty());
}

#[test]
fn trailing_newline_adds_no_name() {
    assert_eq!(package_names("A.B\n"), vec!["a.b"]);
}

#[test]
fn records_carry_the_names() {
    let names = vec!["a.b".to_string(), "c".to_string()];
    let records = records_from_names(&names);
    assert_eq!(records.len(), 2);
    assert_eq!(records[0].identifier, "a.b");
    assert_eq!(records[0].display_name, "a.b");
    assert_eq!(records[1].identifier, "c");
    assert!(records[1].version.is_empty());
    assert!(records[1].publisher.is_empty());
}

#[test]
fn unicode_white_space_is_trimmed() {
    assert_eq!(package_names("\u{3000}Foo.Bar\u{a0}\u{2009}\n\u{85}\u{202f}\n"), vec!["foo.bar"]);
}
