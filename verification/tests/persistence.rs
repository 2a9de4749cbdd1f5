use layout_backend::marker::DataDirOutcome;
use layout_backend::marker::MarkerReadOutcome;
use layout_backend::marker::PersistError;
use layout_backend::marker::finish_save;
use layout_backend::marker::interpret_marker_read;
use layout_backend::marker::marker_file_name;
use layout_backend::marker::plan_marker_write;
use layout_backend::marker::plan_save;
use layout_backend::text::trim;

#[test]
fn trim_strips_both_ends() {
    assert_eq!(trim("  /home/u/chip.gds \n"), "/home/u/chip.gds");
}

#[test]
fn trim_of_plain_text_is_identity() {
    assert_eq!(trim("/home/u/chip.gds"), "/home/u/chip.gds");
}

#[test]
fn trim_of_all_whitespace_is_empty() {
    assert_eq!(trim(" \t\r\n"), "");
}

#[test]
fn trim_of_empty_is_empty() {
    assert_eq!(trim(""), "");
}

#[test]
fn trim_strips_unicode_whitespace() {
    assert_eq!(trim("\u{a0}/a/b.gds\u{a0}"), "/a/b.gds");
    assert_eq!(trim("\u{2028}\u{3000} /a/b.gds \u{2009}\u{85}"), "/a/b.gds");
}

#[test]
fn trim_matches_std_trim() {
    let samples = ["\u{a0}a\u{1680}", "  x ", "\u{205f}", "a\u{200a}b", "", "\u{2029}p\u{202f}"];
    for s in samples {
        assert_eq!(trim(s), s.trim());
    }
}

#[test]
fn trim_keeps_inner_whitespace() {
    assert_eq!(trim("  a b\tc  "), "a b\tc");
}

#[test]
fn marker_file_is_last_file_txt() {
    assert_eq!(marker_file_name(), "last_file.txt");
}

#[test]
fn missing_marker_reads_as_no_value() {
    assert_eq!(interpret_marker_read(MarkerReadOutcome::Missing), Ok(None));
}

#[test]
fn marker_contents_come_back_trimmed() {
    let r = interpret_marker_read(MarkerReadOutcome::Contents("/a/b.gds\n".to_string()));
    assert_eq!(r, Ok(Some("/a/b.gds".to_string())));
}

#[test]
fn marker_contents_lose_unicode_whitespace_edges() {
    let r = interpret_marker_read(MarkerReadOutcome::Contents("\u{a0}/a/b.gds\u{a0}\n".to_string()));
    assert_eq!(r, Ok(Some("/a/b.gds".to_string())));
}

#[test]
fn unresolved_dir_fails_the_read() {
    let r = interpret_marker_read(MarkerReadOutcome::NoDataDir("denied".to_string()));
    assert_eq!(r, Err(PersistError::DirUnresolved("denied".to_string())));
}

#[test]
fn unreadable_marker_fails_the_read() {
    let r = interpret_marker_read(MarkerReadOutcome::Unreadable("io".to_string()));
    assert_eq!(r, Err(PersistError::ReadFailed("io".to_string())));
}

#[test]
fn save_starts_with_the_resolved_dir() {
    let r = plan_save(DataDirOutcome::Resolved("/data/app".to_string()));
    assert_eq!(r, Ok("/data/app".to_string()));
}

#[test]
fn save_aborts_when_the_dir_does_not_resolve() {
    let r = plan_save(DataDirOutcome::Unresolved("no home".to_string()));
    assert_eq!(r, Err(PersistError::DirUnresolved("no home".to_string())));
}

#[test]
fn failed_dir_creation_plans_no_write() {
    let r = plan_marker_write("/a/b.gds".to_string(), Err("permission denied".to_string()));
    assert_eq!(r, Err(PersistError::DirCreateFailed("permission denied".to_string())));
}

#[test]
fn successful_creation_plans_a_verbatim_write() {
    let r = plan_marker_write("  /a/b.gds \n".to_string(), Ok(()));
    let w = r.unwrap();
    assert_eq!(w.file_name, "last_file.txt");
    assert_eq!(w.contents, "  /a/b.gds \n");
}

#[test]
fn finish_save_reports_the_write_outcome() {
    assert_eq!(finish_save(Ok(())), Ok(()));
    assert_eq!(
        finish_save(Err("disk full".to_string())),
        Err(PersistError::WriteFailed("disk full".to_string()))
    );
}

#[test]
fn save_then_read_round_trip() {
    let path = "  /home/u/chip.gds ".to_string();
    let w = plan_marker_write(path.clone(), Ok(())).unwrap();
    let r = interpret_marker_read(MarkerReadOutcome::Contents(w.contents));
    assert_eq!(r, Ok(Some("/home/u/chip.gds".to_string())));
}
