use colorlog::clock::{padded_decimal, signed_decimal};
use colorlog::logger::padding;
use colorlog::stamp::{render_date, substitute_tokens};
use colorlog::{Coloring, Colors, Logger, Overwrite, OverwriteDate, Severity, Timestamp};

const WHITE: &str = "\u{1b}[37;1m";
const RESET: &str = "\u{1b}[0m";
const HIGHLIGHT: &str = "\u{1b}[41m";

fn frozen() -> Timestamp {
    Timestamp { year: 2024, month: 1, day: 2, hour: 3, minute: 4, second: 5, millis: 1704164645000 }
}

fn all() -> [Severity; 4] {
    [Severity::Info, Severity::Error, Severity::Debug, Severity::Fatal]
}

#[test]
fn palette_codes() {
    assert_eq!(Colors::UNDERLINE.resolve(), "\u{1b}[4m");
    assert_eq!(Colors::BLUE.resolve(), "\u{1b}[34;1m");
    assert_eq!(Colors::BROWN.resolve(), "\u{1b}[0;33m");
    assert_eq!(Colors::RED.resolve(), "\u{1b}[31;1m");
    assert_eq!(Colors::BLACK.resolve(), "\u{1b}[30;1m");
    assert_eq!(Colors::GREEN.resolve(), "\u{1b}[32;1m");
    assert_eq!(Colors::YELLOW.resolve(), "\u{1b}[33;1m");
    assert_eq!(Colors::MAGENTA.resolve(), "\u{1b}[35;1m");
    assert_eq!(Colors::CYAN.resolve(), "\u{1b}[36;1m");
    assert_eq!(Colors::WHITE.resolve(), WHITE);
    assert_eq!(Colors::RESET.resolve(), RESET);
}

#[test]
fn init_defaults() {
    let l = Logger::init(None, None, None);
    assert_eq!(l.symbols, ("", ""));
    assert_eq!(l.colors.fatal, Colors::WHITE.resolve());
    assert_eq!(l.colors.error, Colors::RED.resolve());
    assert_eq!(l.colors.info, Colors::BLUE.resolve());
    assert_eq!(l.colors.debug, Colors::MAGENTA.resolve());
    assert_eq!(l.date, "YY-MM-DD HH:MI");
}

#[test]
fn init_keeps_given_values() {
    let colors = Coloring { fatal: "f", error: "e", info: "i", debug: "d" };
    let l = Logger::init(Some(("<", ">")), Some(colors), Some("HH"));
    assert_eq!(l.symbols, ("<", ">"));
    assert_eq!(l.colors.info, "i");
    assert_eq!(l.colors.fatal, "f");
    assert_eq!(l.date, "HH");
}

#[test]
fn default_line_for_each_severity() {
    let l = Logger::init(Some(("[", "]")), None, None);
    for s in all() {
        let line = l.render("msg", s, None, &frozen());
        let name = s.name();
        let color = match s {
            Severity::Info => Colors::BLUE.resolve(),
            Severity::Error => Colors::RED.resolve(),
            Severity::Debug => Colors::MAGENTA.resolve(),
            Severity::Fatal => Colors::WHITE.resolve(),
        };
        let title = if s == Severity::Fatal { format!("{}{}", HIGHLIGHT, name) } else { name.to_string() };
        let pad = " ".repeat(8 - name.len() + name.len() / 2);
        let expected = format!(
            "{}[2024-01-02 03:04]{}  {}[{}{}{}]{}msg{}",
            WHITE, RESET, color, title, RESET, color, pad, RESET
        );
        assert_eq!(line, expected);
    }
}

#[test]
fn empty_title_drops_title_and_brackets() {
    let l = Logger::init(Some(("<", ">")), None, None);
    let o = Overwrite { title: "", color: "", underline: false, date: OverwriteDate { show: true, format: "" } };
    for s in all() {
        let line = l.render("plain", s, Some(o), &frozen());
        assert!(!line.contains('<'));
        assert!(!line.contains('>'));
        assert!(!line.contains(s.name()));
        let body = if s == Severity::Fatal { HIGHLIGHT } else { "" };
        let color = l.colors.info;
        let color = match s {
            Severity::Info => color,
            Severity::Error => l.colors.error,
            Severity::Debug => l.colors.debug,
            Severity::Fatal => l.colors.fatal,
        };
        assert!(line.ends_with(&format!("  {}{}{}{}        plain{}", color, body, RESET, color, RESET)));
    }
}

#[test]
fn hidden_date_has_no_timestamp_block() {
    let l = Logger::init(None, None, None);
    let o = Overwrite { title: "T", color: "c", underline: false, date: OverwriteDate { show: false, format: "YY" } };
    let line = l.render("m", Severity::Info, Some(o), &frozen());
    assert!(line.starts_with(&format!("{}{}  c", WHITE, RESET)));
    assert!(!line.contains("2024"));
}

#[test]
fn rendering_is_repeatable() {
    let a = render_date("YY-MM-DD", &frozen());
    let b = render_date("YY-MM-DD", &frozen());
    assert_eq!(a, b);
    assert_eq!(a, format!("{}[2024-01-02]{}", WHITE, RESET));
}

#[test]
fn long_titles_get_no_padding() {
    assert_eq!(padding(0), " ".repeat(8));
    assert_eq!(padding(4), " ".repeat(6));
    assert_eq!(padding(5), " ".repeat(5));
    assert_eq!(padding(12), " ".repeat(2));
    assert_eq!(padding(16), "");
    assert_eq!(padding(17), "");
    assert_eq!(padding(1000), "");
    let l = Logger::init(None, None, None);
    let o = Overwrite { title: "a-very-long-title-here", color: "", underline: false, date: OverwriteDate { show: false, format: "" } };
    let line = l.render("m", Severity::Debug, Some(o), &frozen());
    assert!(line.contains(&format!("a-very-long-title-here{}{}m", RESET, l.colors.debug)));
}

#[test]
fn only_fatal_is_highlighted() {
    let l = Logger::init(None, None, None);
    for s in all() {
        let line = l.render("m", s, None, &frozen());
        assert_eq!(line.contains(HIGHLIGHT), s == Severity::Fatal);
    }
}

#[test]
fn end_to_end_info_line() {
    let l = Logger::init(None, None, None);
    let line = l.render("ready", Severity::Info, None, &frozen());
    assert!(line.contains("[2024-01-02 03:04]"));
    assert!(line.contains("Info"));
    assert!(line.ends_with(&format!("ready{}", RESET)));
}

#[test]
fn underline_is_applied_twice() {
    let l = Logger::init(Some(("(", ")")), None, None);
    let o = Overwrite { title: "Hi", color: "C", underline: true, date: OverwriteDate { show: true, format: "" } };
    let line = l.render("m", Severity::Error, Some(o), &frozen());
    let ul = Colors::UNDERLINE.resolve();
    let expected = format!(
        "{}[2024-01-02 03:04]{}  C({}Hi{}C){}{}m{}",
        WHITE, RESET, ul, RESET, " ".repeat(7), ul, RESET
    );
    assert_eq!(line, expected);
}

#[test]
fn override_pattern_wins_over_default() {
    let l = Logger::init(None, None, Some("HH"));
    let o = Overwrite { title: "x", color: "", underline: false, date: OverwriteDate { show: true, format: "SS" } };
    let line = l.render("m", Severity::Info, Some(o), &frozen());
    assert!(line.starts_with(&format!("{}[05]{}", WHITE, RESET)));
    assert!(line.contains(&format!("  {}x", Colors::BLUE.resolve())));
    let line = l.render("m", Severity::Info, None, &frozen());
    assert!(line.starts_with(&format!("{}[03]{}", WHITE, RESET)));
}

#[test]
fn empty_default_pattern_gives_no_block() {
    let l = Logger::init(None, None, Some(""));
    let line = l.render("m", Severity::Info, None, &frozen());
    assert!(line.starts_with(&format!("{}{}  ", WHITE, RESET)));
}

#[test]
fn pattern_is_upper_cased_first() {
    assert_eq!(render_date("yy/mm/dd hh:mi:ss", &frozen()), format!("{}[2024/01/02 03:04:05]{}", WHITE, RESET));
}

#[test]
fn tokens_are_replaced_in_one_pass() {
    let t = frozen();
    assert_eq!(substitute_tokens("MMI", &t), "01I");
    assert_eq!(substitute_tokens("MIMM", &t), "0401");
    assert_eq!(substitute_tokens("MS", &t), "1704164645000");
    assert_eq!(substitute_tokens("X-Y", &t), "X-Y");
    assert_eq!(substitute_tokens("", &t), "");
    assert_eq!(substitute_tokens("YYYY", &t), "20242024");
}

#[test]
fn decimal_rendering() {
    assert_eq!(padded_decimal(0, 2), "00");
    assert_eq!(padded_decimal(7, 2), "07");
    assert_eq!(padded_decimal(59, 2), "59");
    assert_eq!(padded_decimal(12345, 2), "12345");
    assert_eq!(padded_decimal(u64::MAX, 0), "18446744073709551615");
    assert_eq!(signed_decimal(-5, 4), "-0005");
    assert_eq!(signed_decimal(i64::MIN, 1), "-9223372036854775808");
    assert_eq!(signed_decimal(42, 4), "0042");
}

#[test]
fn live_clock_lines() {
    let l = Logger::init(None, None, None);
    for line in [l.info("a", None), l.error("a", None), l.debug("a", None), l.fatal("a", None)] {
        assert!(line.starts_with(&format!("{}[", WHITE)));
        let year: i32 = line[WHITE.len() + 1..WHITE.len() + 5].parse().unwrap();
        assert!(year >= 2000);
        assert!(line.ends_with(&format!("a{}", RESET)));
    }
}
