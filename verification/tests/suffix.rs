use png_converter::suffix::ends_with_png;

#[test]
fn plain_png_path() {
    assert!(ends_with_png("a.png"));
}

#[test]
fn bare_suffix() {
    assert!(ends_with_png(".png"));
}

#[test]
fn longer_path() {
    assert!(ends_with_png("/home/user/pictures/holiday.png"));
}

#[test]
fn jpg_path() {
    assert!(!ends_with_png("a.jpg"));
}

#[test]
fn empty_path() {
    assert!(!ends_with_png(""));
}

#[test]
fn too_short() {
    assert!(!ends_with_png("png"));
}

#[test]
fn case_sensitive() {
    assert!(!ends_with_png("a.PNG"));
}

#[test]
fn suffix_not_at_end() {
    assert!(!ends_with_png("a.png.jpg"));
}

#[test]
fn suffix_without_dot() {
    assert!(!ends_with_png("apng"));
}
