use iio_probe::trim_ws;

#[test]
fn trim_strips_both_ends() {
    assert_eq!(trim_ws(" \t42\n"), "42");
}

#[test]
fn trim_keeps_inner_whitespace() {
    assert_eq!(trim_ws("  Haus im Wald \r\n"), "Haus im Wald");
}

#[test]
fn trim_of_trimmed_is_unchanged() {
    assert_eq!(trim_ws("HANS"), "HANS");
}

#[test]
fn trim_of_all_whitespace_is_empty() {
    assert_eq!(trim_ws(" \n\t\r"), "");
}

#[test]
fn trim_of_empty_is_empty() {
    assert_eq!(trim_ws(""), "");
}
