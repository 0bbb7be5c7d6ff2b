use kakoune::EscapedString;

/// Reads a `%§...§` block the way the command language does; `None` where
/// the text is not exactly one such block.
fn read_argument(t: &str) -> Option<String> {
    let chars: Vec<char> = t.chars().collect();
    if chars.len() < 2 || chars[0] != '%' || chars[1] != '§' {
        return None;
    }
    let mut value = String::new();
    let mut i = 2;
    while i < chars.len() {
        if chars[i] == '§' {
            if i + 1 < chars.len() && chars[i + 1] == '§' {
                value.push('§');
                i += 2;
            } else {
                return if i + 1 == chars.len() { Some(value) } else { None };
            }
        } else {
            value.push(chars[i]);
            i += 1;
        }
    }
    None
}

#[test]
fn escape_plain_text() {
    assert_eq!(EscapedString::escape("abc").as_str(), "%§abc§");
}

#[test]
fn escape_empty_text() {
    assert_eq!(EscapedString::escape("").as_str(), "%§§");
}

#[test]
fn escape_doubles_each_delimiter() {
    assert_eq!(EscapedString::escape("a§b").as_str(), "%§a§§b§");
    assert_eq!(EscapedString::escape("§§§").as_str(), "%§§§§§§§§");
}

#[test]
fn escape_keeps_other_characters() {
    assert_eq!(EscapedString::escape("a b}'\"%{").as_str(), "%§a b}'\"%{§");
}

#[test]
fn escape_round_trip_on_samples() {
    for t in ["", "plain", "with space", "§", "a§b", "§§x§", "x\ny", "ünï§cødé"] {
        let e = EscapedString::escape(t);
        assert_eq!(read_argument(e.as_str()), Some(t.to_string()));
    }
}

#[test]
fn escape_twice_differs_from_once() {
    for t in ["", "abc", "§"] {
        let once = EscapedString::escape(t);
        let twice = EscapedString::escape(once.as_str());
        assert_ne!(once.as_str(), twice.as_str());
        assert_eq!(read_argument(twice.as_str()), Some(once.as_str().to_string()));
    }
}

#[test]
fn new_unchecked_keeps_text() {
    let e = EscapedString::new_unchecked("INFO:".to_string());
    assert_eq!(e.as_str(), "INFO:");
}
