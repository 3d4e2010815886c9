use silk::text::{chars, contains, parse_i64, remove_char, split, starts_with};
use silk::types::Timestamp;
use silk::youtube::published::{parse_time_published, resolve_time, seconds_per_unit};

const NOW: Timestamp = Timestamp { secs: 1_700_000_000, nanos: 123_456_789 };

fn before(seconds: i64) -> Option<Timestamp> {
    Some(Timestamp { secs: NOW.secs - seconds, nanos: NOW.nanos })
}

#[test]
fn five_minutes_ago() {
    assert_eq!(resolve_time("há 5 minutos", NOW), before(5 * 60));
}

#[test]
fn two_days_ago() {
    assert_eq!(resolve_time("há 2 dias", NOW), before(2 * 86_400));
}

#[test]
fn non_numeric_amount_resolves_to_none() {
    assert_eq!(resolve_time("há cinco minutos", NOW), None);
    assert_eq!(resolve_time("2 dias atrás", NOW), None);
}

#[test]
fn every_unit_has_its_length() {
    assert_eq!(resolve_time("há 1 segundo", NOW), before(1));
    assert_eq!(resolve_time("há 30 segundos", NOW), before(30));
    assert_eq!(resolve_time("há 1 minuto", NOW), before(60));
    assert_eq!(resolve_time("há 3 horas", NOW), before(3 * 3_600));
    assert_eq!(resolve_time("há 1 dia", NOW), before(86_400));
    assert_eq!(resolve_time("há 1 mês", NOW), before(30 * 86_400));
    assert_eq!(resolve_time("há 2 meses", NOW), before(60 * 86_400));
    assert_eq!(resolve_time("há 1 ano", NOW), before(360 * 86_400));
    assert_eq!(resolve_time("há 2 anos", NOW), before(720 * 86_400));
}

#[test]
fn unknown_unit_resolves_to_none() {
    assert_eq!(resolve_time("há 2 semanas", NOW), None);
    assert_eq!(resolve_time("há 2 mesess", NOW), None);
    assert_eq!(resolve_time("2 days ago", NOW), None);
}

#[test]
fn too_few_pieces_resolve_to_none() {
    assert_eq!(resolve_time("", NOW), None);
    assert_eq!(resolve_time("há 5", NOW), None);
    assert_eq!(resolve_time("5 minutos", NOW), None);
}

#[test]
fn pieces_are_cut_at_single_spaces() {
    assert_eq!(resolve_time("há  5 minutos", NOW), None);
    assert_eq!(resolve_time("Transmitido há 5 minutos", NOW), None);
    assert_eq!(resolve_time("x 5 minutos atrás e mais", NOW), before(300));
}

#[test]
fn signed_amounts_are_read() {
    assert_eq!(resolve_time("há +5 minutos", NOW), before(300));
    assert_eq!(resolve_time("há -5 minutos", NOW), before(-300));
}

#[test]
fn out_of_reach_resolves_to_none() {
    assert_eq!(resolve_time("há 9223372036854775807 anos", NOW), None);
    assert_eq!(resolve_time("há 9223372036854775808 segundos", NOW), None);
    let early = Timestamp { secs: i64::MIN + 10, nanos: 0 };
    assert_eq!(resolve_time("há 11 segundos", early), None);
    assert_eq!(
        resolve_time("há 10 segundos", early),
        Some(Timestamp { secs: i64::MIN, nanos: 0 })
    );
}

#[test]
fn resolving_from_the_clock_gives_a_past_time() {
    let resolved = parse_time_published("há 5 minutos").expect("a time");
    let later = parse_time_published("há 0 segundos").expect("a time");
    assert!(resolved.secs < later.secs);
    assert!(later.secs - resolved.secs >= 299 && later.secs - resolved.secs <= 301);
    assert_eq!(parse_time_published("há muito tempo"), None);
}

#[test]
fn unit_words_match_by_stem() {
    assert_eq!(seconds_per_unit(&chars("segundos")), Some(1));
    assert_eq!(seconds_per_unit(&chars("minuto")), Some(60));
    assert_eq!(seconds_per_unit(&chars("horas")), Some(3_600));
    assert_eq!(seconds_per_unit(&chars("dias")), Some(86_400));
    assert_eq!(seconds_per_unit(&chars("mês")), Some(2_592_000));
    assert_eq!(seconds_per_unit(&chars("meses")), Some(2_592_000));
    assert_eq!(seconds_per_unit(&chars("anos")), Some(31_104_000));
    assert_eq!(seconds_per_unit(&chars("mes")), None);
    assert_eq!(seconds_per_unit(&chars("")), None);
}

#[test]
fn decimal_integers_are_read_like_std() {
    for text in [
        "0", "7", "-7", "+7", "007", "-0", "9223372036854775807", "-9223372036854775808",
        "9223372036854775808", "-9223372036854775809", "", "+", "-", "1 ", " 1", "1a", "--1",
        "٣", "1_000", "99999999999999999999999",
    ] {
        assert_eq!(parse_i64(&chars(text)), text.parse::<i64>().ok(), "for {:?}", text);
    }
}

#[test]
fn splitting_matches_std() {
    for text in ["", " ", "a", "a b", "a  b", " a", "a ", "há 5 minutos", "  "] {
        let pieces: Vec<String> =
            split(&chars(text), ' ').iter().map(|p| p.iter().collect()).collect();
        let expected: Vec<String> = text.split(' ').map(|p| p.to_string()).collect();
        assert_eq!(pieces, expected, "for {:?}", text);
    }
}

#[test]
fn searching_matches_std() {
    for (text, pat) in [
        ("BADGE_STYLE_TYPE_VERIFIED", "VERIFIED"),
        ("VERIFIE", "VERIFIED"),
        ("", ""),
        ("abc", ""),
        ("", "a"),
        ("aab", "ab"),
        ("abab", "bb"),
    ] {
        assert_eq!(contains(&chars(text), &chars(pat)), text.contains(pat));
        assert_eq!(starts_with(&chars(text), &chars(pat)), text.starts_with(pat));
    }
}

#[test]
fn removing_a_character_matches_std() {
    for text in ["1.234.567", "...", "", "abc", ".a."] {
        let got: String = remove_char(&chars(text), '.').iter().collect();
        assert_eq!(got, text.replace('.', ""));
    }
}
