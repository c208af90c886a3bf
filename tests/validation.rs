use account_core::user::{check_registration, normalize_email};
use account_core::validation::{email_valid, password_valid_length, passwords_match};

fn valid(s: &str) -> bool {
    email_valid(&s.to_string())
}

#[test]
fn accepts_plain_and_tagged_addresses() {
    assert!(valid("user@example.com"));
    assert!(valid("a.b+c@sub.example.co"));
    assert!(valid("x_y@a-b.c.museum"));
    assert!(valid("9@9.io"));
}

#[test]
fn rejects_malformed_addresses() {
    assert!(!valid("bad"));
    assert!(!valid("@nodomain.com"));
    assert!(!valid("user@"));
    assert!(!valid(""));
    assert!(!valid(".user@example.com"));
    assert!(!valid("user.@example.com"));
    assert!(!valid("user@-example.com"));
    assert!(!valid("user@exa--mple.com"));
    assert!(!valid("user@example.c"));
    assert!(!valid("user@example.c0m"));
    assert!(!valid("User@example.com"));
    assert!(!valid("us er@example.com"));
    assert!(!valid("user@@example.com"));
    assert!(!valid("user@ex..ample.co"));
}

#[test]
fn accepts_trailing_text_after_a_valid_prefix() {
    assert!(valid("user@example.com>>garbage"));
    assert!(valid("user@example.comxxxxxxxx"));
    assert!(valid("user@ex.am..ple.co"));
}

#[test]
fn agrees_with_the_address_pattern() {
    let pattern = regex::Regex::new(
        r"^([a-z0-9_+]([a-z0-9_+.]*[a-z0-9_+])?)@([a-z0-9]+([\-\.]{1}[a-z0-9]+)*\.[a-z]{2,6})",
    )
    .unwrap();
    let samples = [
        "user@example.com", "a.b+c@sub.example.co", "bad", "@nodomain.com", "user@", "a@b.cd",
        "a@b.c", "a@b-.cd", "a@b.-cd", "a@b..cd", "a..b@c.de", "_@x.yz", "+@x.yz", "a@1.2.3.ab",
        "a@b.c.d", "a@bc.d1", "a@b.cdefghij", "a@b-c-d.ef", "a.@b.cd", "a@.b.cd", "ab@c.d.ef.",
        "é@x.yz", "a@xé.yz", "a@x.yé", "a@x.yzé", "a@x-.y.zz", "a@x.y-z.ab", "a@x.y.z",
    ];
    for s in samples.iter() {
        assert_eq!(valid(s), pattern.is_match(s), "{}", s);
    }
}

#[test]
fn agrees_with_the_address_pattern_on_all_short_strings() {
    let pattern = regex::Regex::new(
        r"^([a-z0-9_+]([a-z0-9_+.]*[a-z0-9_+])?)@([a-z0-9]+([\-\.]{1}[a-z0-9]+)*\.[a-z]{2,6})",
    )
    .unwrap();
    let alphabet = ['a', 'b', '1', '.', '-', '@', '_'];
    let mut current: Vec<Vec<char>> = vec![Vec::new()];
    for _ in 0..6 {
        let mut next = Vec::new();
        for prefix in current.iter() {
            for c in alphabet.iter() {
                let mut w = prefix.clone();
                w.push(*c);
                let s: String = w.iter().collect();
                assert_eq!(valid(&s), pattern.is_match(&s), "{}", s);
                next.push(w);
            }
        }
        current = next;
    }
}

#[test]
fn password_length_counts_characters() {
    assert!(!password_valid_length(&"123456789".to_string()));
    assert!(password_valid_length(&"1234567890".to_string()));
    assert!(!password_valid_length(&"ééééééééé".to_string()));
    assert!(password_valid_length(&"éééééééééé".to_string()));
    assert!(!password_valid_length(&String::new()));
}

#[test]
fn passwords_match_is_exact() {
    assert!(passwords_match(&"abc".to_string(), &"abc".to_string()));
    assert!(!passwords_match(&"abc".to_string(), &"abC".to_string()));
    assert!(!passwords_match(&"abc".to_string(), &"abc ".to_string()));
}

#[test]
fn registration_checks_run_in_order() {
    let e = |s: &str| s.to_string();
    let err = check_registration(&e("bad"), &e("short"), &e("other")).unwrap_err();
    assert_eq!(err, (400, e("Passwords do not match")));
    let err = check_registration(&e("bad"), &e("short"), &e("short")).unwrap_err();
    assert_eq!(err, (400, e("password must contain at least 10 characters")));
    let err = check_registration(&e("bad"), &e("password1234"), &e("password1234")).unwrap_err();
    assert_eq!(err, (400, e("Invalid email")));
    assert!(check_registration(&e("new@x.com"), &e("password1234"), &e("password1234")).is_ok());
}

#[test]
fn short_passwords_fail_on_length() {
    let email = "new@x.com".to_string();
    for p in ["", "a", "123456789", "ééééééééé"] {
        let p = p.to_string();
        let err = check_registration(&email, &p, &p).unwrap_err();
        assert_eq!(err.0, 400);
        assert_eq!(err.1, "password must contain at least 10 characters");
    }
    for p in ["1234567890", "éééééééééé", "a much longer password"] {
        let p = p.to_string();
        assert!(check_registration(&email, &p, &p).is_ok());
    }
}

#[test]
fn addresses_are_lowercased() {
    assert_eq!(normalize_email(&"New@X.COM".to_string()), "new@x.com");
    assert_eq!(normalize_email(&"ÉLODIE@X.FR".to_string()), "élodie@x.fr");
    assert_eq!(normalize_email(&String::new()), "");
}
