use linnote::text::{chars_of, contains, ends_with, starts_with, str_equal};

#[test]
fn chars_in_order() {
    assert_eq!(chars_of("aé🙂"), vec!['a', 'é', '🙂']);
    assert_eq!(chars_of(""), Vec::<char>::new());
}

#[test]
fn prefix_suffix_substring() {
    assert!(starts_with("adfs.school", "adfs."));
    assert!(!starts_with("adf", "adfs."));
    assert!(ends_with("a.onenote.com", ".onenote.com"));
    assert!(!ends_with("onenote.com", ".onenote.com"));
    assert!(contains("/x/saml2/y", "/saml"));
    assert!(!contains("/x/sam", "/saml"));
    assert!(contains("abc", ""));
    assert!(contains("", ""));
    assert!(!contains("", "a"));
    assert!(contains("/login", "/login"));
}

#[test]
fn equality_by_characters() {
    assert!(str_equal("https", "https"));
    assert!(!str_equal("https", "http"));
    assert!(str_equal("", ""));
}

