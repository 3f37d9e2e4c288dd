use negma::config::{Warning, WarningKind, CFG};
use negma::line::{classify_line, Key, Line};
use negma::setup::DEFAULT_CONTENT;

fn lines_of(text: &str) -> Vec<Option<String>> {
    text.lines().map(|l| Some(l.to_string())).collect()
}

fn parse_text(text: &str) -> (CFG, Vec<Warning>) {
    CFG::parse(&lines_of(text))
}

fn assert_defaults(c: &CFG) {
    assert_eq!(c.editor, "nano");
    assert_eq!(c.git, "");
    assert!(!c.issu);
    assert_eq!(c.keep, 5);
    assert!(c.alias.is_empty());
    assert_eq!(c.system_flake, None);
    assert_eq!(c.rebuild_flags, None);
    assert_eq!(c.channel, None);
    assert!(!c.auto_gc);
    assert_eq!(c.gc_age_days, None);
    assert_eq!(c.formatter, None);
    assert!(!c.auto_fmt);
}

#[test]
fn empty_file_gives_defaults() {
    let (c, w) = parse_text("");
    assert_defaults(&c);
    assert!(w.is_empty());
}

#[test]
fn comments_and_blank_lines_read_as_empty_file() {
    let (c, w) = parse_text("# a comment\n\n   \n\t# indented comment\n#EDITOR = vim\n");
    assert_defaults(&c);
    assert!(w.is_empty());
}

#[test]
fn duplicate_alias_names_are_both_kept_in_order() {
    let (c, w) = parse_text("alias mk = build\nalias mk = switch\n");
    assert_eq!(c.alias.len(), 2);
    assert_eq!(c.alias[0], ("mk".to_string(), "build".to_string()));
    assert_eq!(c.alias[1], ("mk".to_string(), "switch".to_string()));
    assert!(w.is_empty());
}

#[test]
fn auto_gc_yes_reads_true() {
    let (c, w) = parse_text("AUTO_GC = YES");
    assert!(c.auto_gc);
    assert!(w.is_empty());
}

#[test]
fn auto_gc_one_reads_true() {
    let (c, _) = parse_text("AUTO_GC = 1");
    assert!(c.auto_gc);
}

#[test]
fn auto_gc_maybe_reads_false_without_warning() {
    let (c, w) = parse_text("AUTO_GC = maybe");
    assert!(!c.auto_gc);
    assert!(w.is_empty());
}

#[test]
fn auto_fmt_true_in_capitals_reads_true() {
    let (c, _) = parse_text("AUTO_FMT = True");
    assert!(c.auto_fmt);
    let (c, _) = parse_text("AUTO_FMT = yes\nAUTO_FMT = no");
    assert!(!c.auto_fmt);
}

#[test]
fn blank_system_flake_is_absent() {
    let (c, w) = parse_text("SYSTEM_FLAKE = ");
    assert_eq!(c.system_flake, None);
    assert!(w.is_empty());
}

#[test]
fn blank_optional_keeps_earlier_value() {
    let (c, _) = parse_text("CHANNEL = nixos-unstable\nCHANNEL =");
    assert_eq!(c.channel, Some("nixos-unstable".to_string()));
}

#[test]
fn negative_gc_age_warns_and_stays_unset() {
    let (c, w) = parse_text("GC_AGE_DAYS = -1");
    assert_eq!(c.gc_age_days, None);
    assert_eq!(w.len(), 1);
    assert_eq!(w[0].line, 1);
    assert_eq!(w[0].kind, WarningKind::InvalidValue(Key::GcAgeDays));
    assert_eq!(w[0].content, "GC_AGE_DAYS = -1");
}

#[test]
fn gc_age_beyond_u32_warns() {
    let (c, w) = parse_text("GC_AGE_DAYS = 4294967296");
    assert_eq!(c.gc_age_days, None);
    assert_eq!(w[0].kind, WarningKind::InvalidValue(Key::GcAgeDays));
    let (c, w) = parse_text("GC_AGE_DAYS = 4294967295");
    assert_eq!(c.gc_age_days, Some(4294967295));
    assert!(w.is_empty());
}

#[test]
fn malformed_lines_keep_defaults() {
    let (c, w) = parse_text("alias mk build\nKEEP = abc\nEDITOR vim\nfoo = bar\n");
    assert_defaults(&c);
    assert_eq!(w.len(), 4);
    assert_eq!(w[0].line, 1);
    assert_eq!(w[0].kind, WarningKind::InvalidAlias);
    assert_eq!(w[1].line, 2);
    assert_eq!(w[1].kind, WarningKind::InvalidValue(Key::Keep));
    assert_eq!(w[2].line, 3);
    assert_eq!(w[2].kind, WarningKind::InvalidSyntax(Key::Editor));
    assert_eq!(w[3].line, 4);
    assert_eq!(w[3].kind, WarningKind::Unrecognized);
    assert_eq!(w[3].content, "foo = bar");
}

#[test]
fn bad_keep_keeps_earlier_value() {
    let (c, w) = parse_text("KEEP = 9\nKEEP = 1.5\n");
    assert_eq!(c.keep, 9);
    assert_eq!(w.len(), 1);
    assert_eq!(w[0].line, 2);
}

#[test]
fn unreadable_line_warns_and_counts() {
    let lines = vec![Some("EDITOR = vim".to_string()), None, Some("KEEP = x".to_string())];
    let (c, w) = CFG::parse(&lines);
    assert_eq!(c.editor, "vim");
    assert_eq!(w.len(), 2);
    assert_eq!(w[0].line, 2);
    assert_eq!(w[0].kind, WarningKind::Unreadable);
    assert_eq!(w[0].content, "");
    assert_eq!(w[1].line, 3);
}

#[test]
fn every_key_round_trips() {
    let text = "EDITOR = helix\nGIT = https://example.org/cfg\nKEEP = -3\n\
SYSTEM_FLAKE = github:me/cfg\nREBUILD_FLAGS = --impure --show-trace\nCHANNEL = nixos-unstable\n\
AUTO_GC = true\nGC_AGE_DAYS = 15\nFORMATTER = alejandra\nAUTO_FMT = yes\n";
    let (c, w) = parse_text(text);
    assert!(w.is_empty());
    assert_eq!(c.editor, "helix");
    assert_eq!(c.git, "https://example.org/cfg");
    assert_eq!(c.keep, -3);
    assert_eq!(c.system_flake, Some("github:me/cfg".to_string()));
    assert_eq!(c.rebuild_flags, Some("--impure --show-trace".to_string()));
    assert_eq!(c.channel, Some("nixos-unstable".to_string()));
    assert!(c.auto_gc);
    assert_eq!(c.gc_age_days, Some(15));
    assert_eq!(c.formatter, Some("alejandra".to_string()));
    assert!(c.auto_fmt);
    assert!(!c.issu);
}

#[test]
fn whitespace_around_keys_and_values_is_trimmed() {
    let (c, w) = parse_text("  \tEDITOR   =   nvim -p  \r\n   alias  up =  switch --upgrade ");
    assert!(w.is_empty());
    assert_eq!(c.editor, "nvim -p");
    assert_eq!(c.alias, vec![("up".to_string(), "switch --upgrade".to_string())]);
}

#[test]
fn value_keeps_later_equals_signs() {
    let (c, _) = parse_text("REBUILD_FLAGS = --option a=b");
    assert_eq!(c.rebuild_flags, Some("--option a=b".to_string()));
    let (c, _) = parse_text("alias e = x = y");
    assert_eq!(c.alias[0], ("e".to_string(), "x = y".to_string()));
}

#[test]
fn signed_keep_values() {
    let (c, _) = parse_text("KEEP = +7");
    assert_eq!(c.keep, 7);
    let (c, w) = parse_text("KEEP = 2147483648");
    assert_eq!(c.keep, 5);
    assert_eq!(w.len(), 1);
}

#[test]
fn alias_word_must_stand_alone() {
    let (c, w) = parse_text("aliasmk = build");
    assert!(c.alias.is_empty());
    assert_eq!(w[0].kind, WarningKind::Unrecognized);
    let (_, w) = parse_text("alias");
    assert_eq!(w[0].kind, WarningKind::InvalidAlias);
}

#[test]
fn key_matching_is_case_sensitive() {
    let (c, w) = parse_text("editor = vim");
    assert_eq!(c.editor, "nano");
    assert_eq!(w[0].kind, WarningKind::Unrecognized);
}

#[test]
fn classify_reads_each_kind_of_line() {
    assert!(matches!(classify_line("  # note"), Line::Blank));
    assert!(matches!(classify_line("alias a"), Line::BadAlias));
    assert!(matches!(classify_line("KEEP 3"), Line::BadSyntax(Key::Keep)));
    assert!(matches!(classify_line("what"), Line::Unrecognized));
    match classify_line("GIT =  repo ") {
        Line::Assign(Key::Git, v) => assert_eq!(v, "repo"),
        _ => panic!("expected an assignment"),
    }
}

#[test]
fn default_content_parses_cleanly() {
    let (c, w) = parse_text(DEFAULT_CONTENT);
    assert!(w.is_empty());
    assert_eq!(c.editor, "nano");
    assert_eq!(c.git, "");
    assert_eq!(c.keep, 5);
    assert!(c.alias.is_empty());
    assert_eq!(c.system_flake, None);
    assert_eq!(c.rebuild_flags, None);
    assert_eq!(c.channel, None);
    assert!(c.auto_gc);
    assert_eq!(c.gc_age_days, Some(15));
    assert_eq!(c.formatter, Some("alejandra".to_string()));
    assert!(c.auto_fmt);
}

#[test]
fn default_content_documents_every_key() {
    let keys = [
        Key::Editor,
        Key::Git,
        Key::Keep,
        Key::SystemFlake,
        Key::RebuildFlags,
        Key::Channel,
        Key::AutoGc,
        Key::GcAgeDays,
        Key::Formatter,
        Key::AutoFmt,
    ];
    for k in keys.iter() {
        let assignment = format!("\n{} =", k.name());
        assert!(DEFAULT_CONTENT.contains(&assignment), "missing {}", k.name());
    }
    assert!(DEFAULT_CONTENT.contains("# alias mk = build"));
}
