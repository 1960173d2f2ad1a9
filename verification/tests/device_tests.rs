use brightr::{
    Backlight, Candidate, Error, FileReading, candidate_is_valid, find_first_backlight,
    use_specific_backlight,
};

fn good(name: &str, current: &[u8], max: &[u8]) -> Candidate {
    Candidate {
        name: Some(name.to_owned()),
        brightness: Some(current.to_vec()),
        max_brightness: Some(max.to_vec()),
    }
}

fn unreadable(name: &str) -> Candidate {
    Candidate {
        name: Some(name.to_owned()),
        brightness: None,
        max_brightness: Some(b"100\n".to_vec()),
    }
}

#[test]
fn scenario_unreadable_entry_is_skipped() {
    // One unreadable entry before a valid one: discovery skips the first
    // and returns the second.
    let candidates = vec![unreadable("acpi_video0"), good("intel_backlight", b"300\n", b"1060\n")];
    let (bl, current) = find_first_backlight(&candidates).unwrap();
    assert_eq!(bl, Backlight { name: "intel_backlight".to_owned(), max: 1060 });
    assert_eq!(current, 300);
}

#[test]
fn first_valid_candidate_wins() {
    let candidates = vec![good("a", b"1\n", b"10\n"), good("b", b"2\n", b"20\n")];
    let (bl, current) = find_first_backlight(&candidates).unwrap();
    assert_eq!(bl.name, "a");
    assert_eq!(bl.max, 10);
    assert_eq!(current, 1);
}

#[test]
fn garbled_entry_is_skipped() {
    let candidates = vec![good("bad", b"oops\n", b"100\n"), good("ok", b"5\n", b"10\n")];
    let (bl, _) = find_first_backlight(&candidates).unwrap();
    assert_eq!(bl.name, "ok");
}

#[test]
fn unrepresentable_name_is_skipped() {
    let nameless = Candidate {
        name: None,
        brightness: Some(b"5\n".to_vec()),
        max_brightness: Some(b"10\n".to_vec()),
    };
    let candidates = vec![nameless, good("ok", b"5\n", b"10\n")];
    let (bl, _) = find_first_backlight(&candidates).unwrap();
    assert_eq!(bl.name, "ok");
}

#[test]
fn no_candidates_is_eternal_darkness() {
    assert_eq!(find_first_backlight(&vec![]), Err(Error::EternalDarkness));
}

#[test]
fn only_bad_candidates_is_eternal_darkness() {
    let candidates = vec![unreadable("a"), good("b", b"x", b"100\n")];
    assert_eq!(find_first_backlight(&candidates), Err(Error::EternalDarkness));
}

#[test]
fn candidate_validity() {
    assert!(candidate_is_valid(&good("a", b"1\n", b"10\n")));
    assert!(!candidate_is_valid(&unreadable("a")));
    assert!(!candidate_is_valid(&good("a", b"1\n", b"ten\n")));
}

#[test]
fn named_device_is_read() {
    let r = use_specific_backlight(
        "panel".to_owned(),
        FileReading {
            path: "/sys/class/backlight/panel/brightness".to_owned(),
            contents: Ok(b"128\n".to_vec()),
        },
        FileReading {
            path: "/sys/class/backlight/panel/max_brightness".to_owned(),
            contents: Ok(b"255\n".to_vec()),
        },
    );
    assert_eq!(r, Ok((Backlight { name: "panel".to_owned(), max: 255 }, 128)));
}

#[test]
fn named_device_read_failure_is_fatal() {
    let r = use_specific_backlight(
        "panel".to_owned(),
        FileReading {
            path: "p/brightness".to_owned(),
            contents: Err("permission denied".to_owned()),
        },
        FileReading { path: "p/max_brightness".to_owned(), contents: Ok(b"255\n".to_vec()) },
    );
    assert_eq!(
        r,
        Err(Error::Access("p/brightness".to_owned(), "permission denied".to_owned()))
    );
}

#[test]
fn named_device_parse_failure_is_fatal() {
    let r = use_specific_backlight(
        "panel".to_owned(),
        FileReading { path: "p/brightness".to_owned(), contents: Ok(b"128\n".to_vec()) },
        FileReading { path: "p/max_brightness".to_owned(), contents: Ok(b"what\n".to_vec()) },
    );
    assert_eq!(r, Err(Error::Parsing("p/max_brightness".to_owned(), b"what\n".to_vec())));
}

#[test]
fn named_device_brightness_judged_first() {
    // Both files are bad: the brightness file's failure is the one reported.
    let r = use_specific_backlight(
        "panel".to_owned(),
        FileReading { path: "p/brightness".to_owned(), contents: Ok(b"bad\n".to_vec()) },
        FileReading { path: "p/max_brightness".to_owned(), contents: Err("gone".to_owned()) },
    );
    assert_eq!(r, Err(Error::Parsing("p/brightness".to_owned(), b"bad\n".to_vec())));
}

#[test]
fn error_messages_are_fixed_text() {
    assert_eq!(
        Error::EternalDarkness.message(),
        "no compatible backlights found on this system"
    );
    assert!(!Error::NonRepresentableName.message().is_empty());
    assert!(!Error::Dbus("x".to_owned()).message().is_empty());
    assert!(!Error::SysAccess("x".to_owned()).message().is_empty());
}

#[test]
fn named_device_max_read_failure_is_fatal() {
    let r = use_specific_backlight(
        "panel".to_owned(),
        FileReading { path: "p/brightness".to_owned(), contents: Ok(b"128\n".to_vec()) },
        FileReading { path: "p/max_brightness".to_owned(), contents: Err("gone".to_owned()) },
    );
    assert_eq!(r, Err(Error::Access("p/max_brightness".to_owned(), "gone".to_owned())));
}
