use furiosa_metadata::{
    IgnorePattern, MetadataError, extract_stdout, format_command_line, git_hash_from_reports,
    parse_commit_hash, parse_patterns, rev_parse_args, split_report, status_args,
};

const FULL_HASH: &str = "0123456789abcdef0123456789abcdef01234567";

#[test]
fn tests() {
    let h = git_hash_from_reports(FULL_HASH, "", "").unwrap();
    assert!(!h.is_empty());
}

#[test]
fn full_form_returned_exactly() {
    let h = git_hash_from_reports(FULL_HASH, "", "").unwrap();
    assert_eq!(h, FULL_HASH);
}

#[test]
fn short_form_prefix_is_valid() {
    let short = &FULL_HASH[..9];
    let h = git_hash_from_reports(short, "", "").unwrap();
    assert_eq!(h, short);
}

#[test]
fn trailing_newline_trimmed() {
    let h = parse_commit_hash("abcdef012\n").unwrap();
    assert_eq!(h, "abcdef012");
    let h = parse_commit_hash("abcdef0123456789 \r\n").unwrap();
    assert_eq!(h, "abcdef0123456789");
}

#[test]
fn hash_too_short_rejected() {
    assert_eq!(parse_commit_hash("abcdef01\n"), Err(MetadataError::BadCommitId));
}

#[test]
fn hash_bad_characters_rejected() {
    assert_eq!(parse_commit_hash("ABCDEF0123\n"), Err(MetadataError::BadCommitId));
    assert_eq!(parse_commit_hash("0123456789xyz\n"), Err(MetadataError::BadCommitId));
    assert_eq!(parse_commit_hash(""), Err(MetadataError::BadCommitId));
}

#[test]
fn empty_report_is_clean() {
    let h = git_hash_from_reports("abcdef0123456789", "", "").unwrap();
    assert_eq!(h, "abcdef0123456789");
}

#[test]
fn modified_record_makes_dirty() {
    let h = git_hash_from_reports("abcdef0123456789", " M src/lib.rs\0", "").unwrap();
    assert_eq!(h, "abcdef0123456789-modified");
}

#[test]
fn suffix_appended_exactly_once_for_many_records() {
    let h = git_hash_from_reports(FULL_HASH, " M a.txt\0D  b.txt\0?", "").unwrap_err();
    // the unterminated last record "?" is malformed, at index 2
    assert_eq!(h, MetadataError::MalformedRecord { index: 2 });
    let h = git_hash_from_reports(FULL_HASH, " M a.txt\0D  b.txt\0", "").unwrap();
    assert_eq!(h.matches("-modified").count(), 1);
    assert_eq!(h, format!("{FULL_HASH}-modified"));
}

#[test]
fn ignored_path_keeps_clean() {
    let h = git_hash_from_reports("abcdef0123456789", " M notes.bak\0", "*.bak").unwrap();
    assert_eq!(h, "abcdef0123456789");
}

#[test]
fn record_matching_several_patterns_excluded_once() {
    let h =
        git_hash_from_reports("abcdef0123456789", " M notes.bak\0", "*.bak:notes.*").unwrap();
    assert_eq!(h, "abcdef0123456789");
}

#[test]
fn one_unignored_record_among_ignored_makes_dirty() {
    let report = " M notes.bak\0 M src/lib.rs\0";
    let h = git_hash_from_reports("abcdef0123456789", report, "*.bak").unwrap();
    assert_eq!(h, "abcdef0123456789-modified");
}

#[test]
fn classification_is_deterministic() {
    let first = git_hash_from_reports(FULL_HASH, " M a\0 M b.bak\0", "*.bak");
    let second = git_hash_from_reports(FULL_HASH, " M a\0 M b.bak\0", "*.bak");
    assert_eq!(first, second);
}

#[test]
fn glob_is_not_a_substring_test() {
    // `*.bak` does not cross a path separator, so a nested path stays dirty
    let h = git_hash_from_reports("abcdef0123456789", " M foo/bar.bak\0", "*.bak").unwrap();
    assert_eq!(h, "abcdef0123456789-modified");
    // the recursive form does match the nested path
    let h = git_hash_from_reports("abcdef0123456789", " M foo/bar.bak\0", "**/*.bak").unwrap();
    assert_eq!(h, "abcdef0123456789");
}

#[test]
fn malformed_record_is_a_parse_error() {
    let e = git_hash_from_reports(FULL_HASH, "XY a.txt\0", "").unwrap_err();
    assert_eq!(e, MetadataError::MalformedRecord { index: 0 });
    let e = git_hash_from_reports(FULL_HASH, " M a.txt\0Z  b\0", "").unwrap_err();
    assert_eq!(e, MetadataError::MalformedRecord { index: 1 });
    // a record with an empty path is malformed too
    let e = git_hash_from_reports(FULL_HASH, "M  \0", "").unwrap_err();
    assert_eq!(e, MetadataError::MalformedRecord { index: 0 });
}

#[test]
fn empty_record_is_malformed() {
    let e = git_hash_from_reports(FULL_HASH, "\0", "").unwrap_err();
    assert_eq!(e, MetadataError::MalformedRecord { index: 0 });
}

#[test]
fn non_ascii_path_is_classified() {
    let h = git_hash_from_reports(FULL_HASH, " M d\u{e9}j\u{e0} vu.txt\0", "").unwrap();
    assert_eq!(h, format!("{FULL_HASH}-modified"));
    let h = git_hash_from_reports(FULL_HASH, " M d\u{e9}j\u{e0} vu.txt\0", "d* vu.txt").unwrap();
    assert_eq!(h, FULL_HASH);
}

#[test]
fn untracked_record_is_a_contract_violation() {
    let e = git_hash_from_reports("abcdef0123456789", "?? newfile.txt\0", "").unwrap_err();
    assert_eq!(e, MetadataError::UntrackedRecord { index: 0 });
}

#[test]
fn ignored_category_is_a_contract_violation() {
    let e = git_hash_from_reports(FULL_HASH, "!! target\0", "").unwrap_err();
    assert_eq!(e, MetadataError::IgnoredRecord { index: 0 });
}

#[test]
fn empty_pattern_between_colons_rejected() {
    let e = git_hash_from_reports(FULL_HASH, "", "a.txt::b.txt").unwrap_err();
    assert_eq!(e, MetadataError::EmptyPattern { index: 1 });
    let e = parse_patterns(":").unwrap_err();
    assert_eq!(e, MetadataError::EmptyPattern { index: 0 });
}

#[test]
fn invalid_glob_pattern_rejected() {
    let e = git_hash_from_reports(FULL_HASH, "", "a[").unwrap_err();
    assert_eq!(e, MetadataError::InvalidPattern { index: 0 });
    let e = parse_patterns("*.ok:***").unwrap_err();
    assert_eq!(e, MetadataError::InvalidPattern { index: 1 });
}

#[test]
fn pattern_errors_take_precedence() {
    // a bad pattern list is reported even when hash and report are fine
    let e = git_hash_from_reports(FULL_HASH, "", ":").unwrap_err();
    assert_eq!(e, MetadataError::EmptyPattern { index: 0 });
    // and also when the hash is bad too
    let e = git_hash_from_reports("bad", "", ":").unwrap_err();
    assert_eq!(e, MetadataError::EmptyPattern { index: 0 });
}

#[test]
fn hash_error_takes_precedence_over_records() {
    let e = git_hash_from_reports("nope", "XY a\0", "").unwrap_err();
    assert_eq!(e, MetadataError::BadCommitId);
}

#[test]
fn parse_patterns_accepts_a_list() {
    let v = parse_patterns("*.bak:**/*.tmp").unwrap();
    assert_eq!(v.len(), 2);
    assert_eq!(v[0].text(), "*.bak");
    assert_eq!(v[1].text(), "**/*.tmp");
    assert!(parse_patterns("").unwrap().is_empty());
}

#[test]
fn ignore_pattern_constructor_checks_the_text() {
    let p = IgnorePattern::new(String::from("*.bak")).unwrap();
    assert_eq!(p.text(), "*.bak");
    assert!(IgnorePattern::new(String::from("a[")).is_none());
}

#[test]
fn split_report_terminator_semantics() {
    let r = split_report(" M a\0D  b\0");
    assert_eq!(r, vec![" M a".to_string(), "D  b".to_string()]);
    let r = split_report(" M a\0D  b");
    assert_eq!(r, vec![" M a".to_string(), "D  b".to_string()]);
    let r = split_report("");
    assert!(r.is_empty());
    let r = split_report("\0");
    assert_eq!(r, vec![String::new()]);
}

#[test]
fn rev_parse_args_forms() {
    let a = rev_parse_args(true);
    assert_eq!(a, vec!["rev-parse".to_string(), "--short=9".to_string(), "HEAD".to_string()]);
    let a = rev_parse_args(false);
    assert_eq!(a, vec!["rev-parse".to_string(), "HEAD".to_string()]);
}

#[test]
fn status_args_form() {
    let a = status_args();
    assert_eq!(
        a,
        vec![
            "status".to_string(),
            "--untracked=no".to_string(),
            "--ignore-submodules=all".to_string(),
            "--no-renames".to_string(),
            "--porcelain".to_string(),
            "-z".to_string(),
        ]
    );
}

#[test]
fn command_line_display_form() {
    let line = format_command_line("/work", &rev_parse_args(false));
    assert_eq!(line, "git -C /work rev-parse HEAD");
    let line = format_command_line("/work", &status_args());
    assert_eq!(
        line,
        "git -C /work status --untracked=no --ignore-submodules=all --no-renames --porcelain -z"
    );
}

#[test]
fn stdout_extraction_outcomes() {
    assert_eq!(extract_stdout(true, b"abcdef012\n").unwrap(), "abcdef012\n");
    assert_eq!(extract_stdout(false, b"abcdef012\n"), Err(MetadataError::CommandFailed));
    assert_eq!(extract_stdout(true, &[0xff, 0xfe]), Err(MetadataError::NotUtf8));
}

#[test]
fn status_codes_cover_the_alphabet() {
    for c in [' ', 'M', 'T', 'A', 'D', 'R', 'C', 'U'] {
        let report = format!("{c}M a.txt\0");
        let h = git_hash_from_reports(FULL_HASH, &report, "").unwrap();
        assert_eq!(h, format!("{FULL_HASH}-modified"));
    }
}
