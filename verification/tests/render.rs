use cli_report::{Code, ColorRole, Properties, Report, Role, Severity, TokenInfo};

fn token_info_entry() -> TokenInfo {
    TokenInfo {
        file_name: "the/file/name.ext".to_string(),
        line: 12,
        position: 4,
        line_text: "the line text".to_string(),
        token_len: 4,
        severity: Severity::Warning,
        message: "the 'line' token".to_string(),
    }
}

#[test]
fn code_display() {
    let code: Code = Code::warning("12345", "the error message");
    assert_eq!(code.severity(), Severity::Warning);
    assert_eq!(code.code(), "12345");
    assert_eq!(code.message(), "the error message");
    let frags = code.fragments();
    let texts: Vec<&str> = frags.iter().map(|f| f.text.as_str()).collect();
    assert_eq!(texts, vec!["warning", "[", "12345", "]: ", "the error message"]);
    let report = Report::new(code);
    assert_eq!(report.render(), "warning[12345]: the error message\n");
}

#[test]
fn properties() {
    let properties: Properties = Properties::default()
        .with("one", "two")
        .with("three", "four")
        .with("five", "six");
    let code: Code = Code::error("an-error-code", "an error message");
    let report: Report = Report::new(code).with_entry(properties.entry());
    assert_eq!(
        report.render(),
        "error[an-error-code]: an error message\n\
         \x20   one:    two\n\
         \x20   three:  four\n\
         \x20   five:   six\n\
         \n"
    );
}

#[test]
fn token_info() {
    let info: TokenInfo = token_info_entry();
    let code: Code = Code::error("an-error-code", "an error message");
    let report: Report = Report::new(code).with_entry(info.entry());
    assert_eq!(
        report.render(),
        "error[an-error-code]: an error message\n\
         \x20 --> the/file/name.ext [line=12, position=5]\n\
         \x20  | \n\
         12 | the line text\n\
         \x20  |     ^^^^ --- the 'line' token\n\
         \x20  | \n"
    );
}

#[test]
fn token_info_third_line_and_carets() {
    let report = Report::new(Code::error("E", "m")).with_entry(token_info_entry().entry());
    let rendered = report.render();
    let lines: Vec<&str> = rendered.split('\n').collect();
    // The third printed line of the call-out block: gutter width 2 for "12".
    assert_eq!(lines[3], "12 | the line text");
    // The caret run has length exactly 4 and starts at character offset 4
    // past the gutter bar.
    let caret_line = lines[4];
    let after_bar = &caret_line["   | ".len()..];
    assert_eq!(&after_bar[..4], "    ");
    assert_eq!(&after_bar[4..8], "^^^^");
    assert_eq!(&after_bar[8..13], " --- ");
}

#[test]
fn severity_labels() {
    assert_eq!(Severity::Error.label(), "error");
    assert_eq!(Severity::Warning.label(), "warning");
    assert_eq!(Severity::Info.label(), "info");
    // Labels are pure: repeated calls agree.
    assert_eq!(Severity::Error.label(), Severity::Error.label());
    assert_eq!(Severity::Warning.label(), Severity::Warning.label());
    assert_eq!(Severity::Info.label(), Severity::Info.label());
}

#[test]
fn severity_order_follows_declaration() {
    assert!(Severity::Error < Severity::Warning);
    assert!(Severity::Warning < Severity::Info);
    assert!(Severity::Error < Severity::Info);
}

#[test]
fn severity_colors() {
    assert_eq!(Severity::Error.color(), ColorRole::BrightRed);
    assert_eq!(Severity::Warning.color(), ColorRole::BrightYellow);
    assert_eq!(Severity::Info.color(), ColorRole::BrightBlue);
}

#[test]
fn code_constructors_fix_severity() {
    assert_eq!(Code::error("c", "m").severity(), Severity::Error);
    assert_eq!(Code::warning("c", "m").severity(), Severity::Warning);
    assert_eq!(Code::info("c", "m").severity(), Severity::Info);
    assert_eq!(Code::from(Severity::Info, "c", "m").severity(), Severity::Info);
    let owned = Code::new(Severity::Error, "c".to_string(), "m".to_string());
    assert_eq!(owned.severity(), Severity::Error);
    assert_eq!(owned.code(), "c");
    assert_eq!(owned.message(), "m");
}

#[test]
fn code_echoes_arguments_verbatim() {
    let code = Code::error("", "");
    assert_eq!(code.code(), "");
    assert_eq!(code.message(), "");
    let tricky = Code::info("[x]:", "a ]: b [");
    assert_eq!(tricky.code(), "[x]:");
    assert_eq!(tricky.message(), "a ]: b [");
    assert_eq!(
        Report::new(tricky).render(),
        "info[[x]:]: a ]: b [\n"
    );
}

#[test]
fn empty_report_is_exactly_the_code_line() {
    let report = Report::new(Code::info("I0", "nothing else"));
    assert_eq!(report.render(), "info[I0]: nothing else\n");
}

#[test]
fn render_is_idempotent() {
    let report = Report::new(Code::warning("W1", "watch out"))
        .with_entry(Properties::default().with("a", "b").entry());
    let first = report.render();
    let second = report.render();
    assert_eq!(first, second);
}

#[test]
fn entries_render_in_append_order() {
    let first = Properties::default().with("first", "1").entry();
    let second = Properties::default().with("second", "2").entry();
    let mut report = Report::new(Code::error("E", "m"));
    report.add_entry(first);
    report.add_entry(second);
    let rendered = report.render();
    let first_at = rendered.find("first").unwrap();
    let second_at = rendered.find("second").unwrap();
    assert!(first_at < second_at);
    assert_eq!(
        rendered,
        "error[E]: m\n    first:  1\n\n    second:  2\n\n"
    );
}

#[test]
fn duplicate_property_names_kept_in_order() {
    let properties = Properties::default()
        .with("key", "first")
        .with("key", "second");
    assert_eq!(
        Report::new(Code::info("I", "m")).with_entry(properties.entry()).render(),
        "info[I]: m\n    key:  first\n    key:  second\n\n"
    );
}

#[test]
fn property_value_columns_align() {
    let properties = Properties::default()
        .with("one", "two")
        .with("three", "four")
        .with("five", "six");
    let rendered = Report::new(Code::error("E", "m")).with_entry(properties.entry()).render();
    let lines: Vec<&str> = rendered.split('\n').collect();
    // max name length 5 ("three"): every value column starts at offset
    // 4 (margin) + 5 (padded name) + 1 (colon) + 2 (spacing) = 12.
    assert_eq!(lines[1].find("two"), Some(12));
    assert_eq!(lines[2].find("four"), Some(12));
    assert_eq!(lines[3].find("six"), Some(12));
}

#[test]
fn single_property_gets_two_trailing_spaces() {
    let properties = Properties::default().with("name", "value");
    assert_eq!(
        Report::new(Code::info("I", "m")).with_entry(properties.entry()).render(),
        "info[I]: m\n    name:  value\n\n"
    );
}

#[test]
fn empty_properties_render_zero_data_rows() {
    let properties = Properties::default();
    assert_eq!(properties.properties().len(), 0);
    assert_eq!(
        Report::new(Code::info("I", "m")).with_entry(properties.entry()).render(),
        "info[I]: m\n\n"
    );
}

#[test]
fn properties_accessors_round_trip() {
    let mut properties = Properties::default();
    properties.add("one", "two");
    properties.add("three", "four");
    let pairs = properties.properties();
    assert_eq!(pairs.len(), 2);
    assert_eq!(pairs[0], ("one".to_string(), "two".to_string()));
    assert_eq!(pairs[1], ("three".to_string(), "four".to_string()));
}

#[test]
fn fragment_roles_follow_the_layout() {
    let code = Code::error("E1", "bad");
    let frags = code.fragments();
    assert_eq!(frags[0].role, Role::Colored(ColorRole::BrightRed));
    assert_eq!(frags[4].role, Role::Emphasis);
    let entry = Properties::default().with("k", "v").entry();
    // Property names and colons are always info-colored.
    assert_eq!(entry[1].role, Role::Colored(ColorRole::BrightBlue));
    assert_eq!(entry[2].role, Role::Colored(ColorRole::BrightBlue));
    assert_eq!(entry[4].role, Role::Plain);
    let token = token_info_entry().entry();
    // The caret run is colored by the token's own severity (Warning here),
    // independent of the report's code.
    let caret = token.iter().find(|f| f.text.starts_with('^')).unwrap();
    assert_eq!(caret.role, Role::Colored(ColorRole::BrightYellow));
}

#[test]
fn wide_line_numbers_widen_the_gutter() {
    let info = TokenInfo {
        file_name: "f.ext".to_string(),
        line: 123,
        position: 7,
        line_text: "Hello, World!".to_string(),
        token_len: 5,
        severity: Severity::Error,
        message: "this is 'World'".to_string(),
    };
    let rendered = Report::new(Code::error("E", "m")).with_entry(info.entry()).render();
    let lines: Vec<&str> = rendered.split('\n').collect();
    assert_eq!(lines[1], "   --> f.ext [line=123, position=8]");
    assert_eq!(lines[2], "    | ");
    assert_eq!(lines[3], "123 | Hello, World!");
    assert_eq!(lines[4], "    |        ^^^^^ --- this is 'World'");
    assert_eq!(lines[5], "    | ");
}

#[test]
fn token_info_display() {
    let info = TokenInfo {
        file_name: "/the/file/name.ext".to_string(),
        line: 123,
        position: 7,
        line_text: "Hello, World!".to_string(),
        token_len: 5,
        severity: Severity::Warning,
        message: "this is 'World'".to_string(),
    };
    let code = Code::from(Severity::Error, "CODE", "warning message");
    let report = Report::new(code).with_entry(info.entry());
    assert_eq!(
        report.render(),
        "error[CODE]: warning message\n\
         \x20  --> /the/file/name.ext [line=123, position=8]\n\
         \x20   | \n\
         123 | Hello, World!\n\
         \x20   |        ^^^^^ --- this is 'World'\n\
         \x20   | \n"
    );
}

#[test]
fn char_count_repeats() {
    assert_eq!(cli_report::char_count('x', 3), "xxx");
    assert_eq!(cli_report::char_count(' ', 0), "");
    assert_eq!(cli_report::char_count('^', 1), "^");
}
