use audit_agent::models::severity::Severity;

/// Reads a token the long way round: the whole string in lower case, then
/// the four tokens.
fn by_lowercase(token: &str) -> Severity {
    match token.to_lowercase().as_str() {
        "critical" => Severity::Critical,
        "high" => Severity::High,
        "medium" => Severity::Medium,
        "low" => Severity::Low,
        _ => Severity::Low,
    }
}

#[test]
fn canonical_tokens_are_read() {
    assert_eq!(Severity::from("critical"), Severity::Critical);
    assert_eq!(Severity::from("high"), Severity::High);
    assert_eq!(Severity::from("medium"), Severity::Medium);
    assert_eq!(Severity::from("low"), Severity::Low);
}

#[test]
fn capital_letters_are_read_as_small_ones() {
    assert_eq!(Severity::from("CRITICAL"), Severity::Critical);
    assert_eq!(Severity::from("High"), Severity::High);
    assert_eq!(Severity::from("mEdIuM"), Severity::Medium);
    assert_eq!(Severity::from("LOW"), Severity::Low);
}

#[test]
fn unknown_tokens_are_read_as_low() {
    for token in [
        "", " ", "severe", "hig", "highh", " high", "high ", "critical!", "info", "warning",
        "med", "0", "null", "h\u{131}gh", "H\u{130}GH", "\u{ff48}igh", "lo\u{ff57}", "high\n",
    ] {
        assert_eq!(Severity::from(token), Severity::Low, "{:?}", token);
    }
}

#[test]
fn tokens_are_written_in_small_letters() {
    assert_eq!(Severity::Critical.as_str(), "critical");
    assert_eq!(Severity::High.as_str(), "high");
    assert_eq!(Severity::Medium.as_str(), "medium");
    assert_eq!(Severity::Low.as_str(), "low");
    assert_eq!(Severity::High.to_string(), "high".to_string());
}

#[test]
fn each_severity_is_read_back_from_its_token() {
    for severity in [Severity::Critical, Severity::High, Severity::Medium, Severity::Low] {
        assert_eq!(Severity::from(severity.as_str()), severity);
        assert_eq!(Severity::from(severity.to_string().as_str()), severity);
    }
}

#[test]
fn writing_after_reading_is_idempotent() {
    for token in ["critical", "HIGH", "Medium", "low", "unknown", ""] {
        let once = Severity::from(token).to_string();
        let twice = Severity::from(once.as_str()).to_string();
        assert_eq!(once, twice);
    }
}

#[test]
fn reading_agrees_with_lowercasing_the_whole_token() {
    let letters = [
        "c", "C", "r", "R", "i", "I", "t", "T", "a", "A", "l", "L", "h", "H", "g", "G", "m",
        "M", "e", "E", "d", "D", "u", "U", "o", "O", "w", "W", "k", "K", "\u{212a}", "\u{130}",
        "\u{131}", "\u{3a3}", "\u{df}", " ",
    ];
    for word in ["critical", "high", "medium", "low"] {
        assert_eq!(Severity::from(word), by_lowercase(word));
        let chars: Vec<char> = word.chars().collect();
        for at in 0..chars.len() {
            for letter in letters {
                let mut token = String::new();
                for (i, c) in chars.iter().enumerate() {
                    if i == at {
                        token.push_str(letter);
                    } else {
                        token.push(*c);
                    }
                }
                assert_eq!(Severity::from(token.as_str()), by_lowercase(&token), "{:?}", token);
                let upper = token.to_uppercase();
                assert_eq!(Severity::from(upper.as_str()), by_lowercase(&upper), "{:?}", upper);
            }
        }
    }
}

#[test]
fn severities_are_ordered_gravest_first() {
    assert!(Severity::Critical < Severity::High);
    assert!(Severity::High < Severity::Medium);
    assert!(Severity::Medium < Severity::Low);
}
