use lsfmt::classify::{classify_recency, classify_size, Recency, SizeBucket};
use lsfmt::formatter::{DateError, Formatter};
use lsfmt::meta::{Meta, NodeType};
use lsfmt::style::{ColorTheme, PrecomputedElems, Style};

fn style(prefix: &str, suffix: &str) -> Style {
    Style { prefix: prefix.to_string(), suffix: suffix.to_string() }
}

fn plain_theme() -> ColorTheme {
    ColorTheme {
        dir: style("", ""),
        unrecognized_file: style("", ""),
        link: style("", ""),
        hour_old: style("", ""),
        day_old: style("", ""),
        older: style("", ""),
        user: style("", ""),
        group: style("", ""),
        file_small: style("", ""),
        file_medium: style("", ""),
        file_large: style("", ""),
    }
}

fn marked_theme() -> ColorTheme {
    ColorTheme {
        dir: style("<dir>", "</dir>"),
        unrecognized_file: style("<file>", "</file>"),
        link: style("<link>", "</link>"),
        hour_old: style("<hour>", "</hour>"),
        day_old: style("<day>", "</day>"),
        older: style("<older>", "</older>"),
        user: style("<user>", "</user>"),
        group: style("<group>", "</group>"),
        file_small: style("<small>", "</small>"),
        file_medium: style("<medium>", "</medium>"),
        file_large: style("<large>", "</large>"),
    }
}

fn classic_elems() -> PrecomputedElems {
    PrecomputedElems {
        file: ".".to_string(),
        dir: "d".to_string(),
        symlink: "l".to_string(),
        no_access: "-".to_string(),
        read: "r".to_string(),
        write: "w".to_string(),
        execute: "x".to_string(),
    }
}

fn file_meta(name: &str, mode: u32, byte_length: u64, value: &str, unit: &str) -> Meta {
    Meta {
        name: name.to_string(),
        node_type: NodeType::File,
        mode,
        modified_secs: Some(0),
        byte_length,
        size_value: value.to_string(),
        size_unit: unit.to_string(),
    }
}

#[test]
fn permission_string_has_ten_characters() {
    let f = Formatter::new();
    let elems = classic_elems();
    for mode in 0u32..512u32 {
        let meta = file_meta("a", mode, 0, "0", "B");
        assert_eq!(f.format_permissions(&meta, &elems).chars().count(), 10);
    }
}

#[test]
fn owner_read_only_mode() {
    let f = Formatter::new();
    let meta = file_meta("a", 0o400, 0, "0", "B");
    assert_eq!(f.format_permissions(&meta, &classic_elems()), ".r--------");
}

#[test]
fn canonical_masks_read_the_low_octal_digit() {
    let f = Formatter::new();
    let meta = file_meta("a", 0o754, 0, "0", "B");
    assert_eq!(f.format_permissions(&meta, &classic_elems()), ".rwxr-xr--");
}

#[test]
fn symlink_permission_glyph() {
    let f = Formatter::new();
    let meta = Meta {
        name: "ln".to_string(),
        node_type: NodeType::SymLink("target".to_string()),
        mode: 0o777,
        modified_secs: Some(0),
        byte_length: 0,
        size_value: "0".to_string(),
        size_unit: "B".to_string(),
    };
    assert_eq!(f.format_permissions(&meta, &classic_elems()), "lrwxrwxrwx");
}

#[test]
fn recency_thresholds() {
    let now: i64 = 1_000_000;
    assert_eq!(classify_recency(now - 3599, now), Recency::HourOld);
    assert_eq!(classify_recency(now - 3600, now), Recency::DayOld);
    assert_eq!(classify_recency(now - 86399, now), Recency::DayOld);
    assert_eq!(classify_recency(now - 86400, now), Recency::Older);
}

#[test]
fn size_thresholds() {
    assert_eq!(classify_size(10 * 1044 * 1024 - 1), SizeBucket::FileSmall);
    assert_eq!(classify_size(10 * 1044 * 1024), SizeBucket::FileMedium);
    assert_eq!(classify_size(100 * 1044 * 1024 - 1), SizeBucket::FileMedium);
    assert_eq!(classify_size(100 * 1044 * 1024), SizeBucket::FileLarge);
}

#[test]
fn symlink_annotation_empty_for_file_and_directory() {
    let f = Formatter::new();
    let theme = marked_theme();
    let file = file_meta("a", 0o644, 0, "0", "B");
    assert_eq!(f.format_symlink(&file, &theme), "");
    let dir = Meta { node_type: NodeType::Directory, ..file_meta("b", 0o755, 0, "0", "B") };
    assert_eq!(f.format_symlink(&dir, &theme), "");
}

#[test]
fn symlink_annotation_carries_arrow_and_target() {
    let f = Formatter::new();
    let meta = Meta {
        name: "ln".to_string(),
        node_type: NodeType::SymLink("/usr/bin".to_string()),
        mode: 0o777,
        modified_secs: Some(0),
        byte_length: 0,
        size_value: "0".to_string(),
        size_unit: "B".to_string(),
    };
    assert_eq!(f.format_symlink(&meta, &plain_theme()), " \u{21d2} /usr/bin");
    assert_eq!(
        f.format_symlink(&meta, &marked_theme()),
        "<link> \u{21d2} <link>/usr/bin</link></link>"
    );
}

#[test]
fn directory_name_gets_icon_and_separator() {
    let f = Formatter::new();
    let dir = Meta { node_type: NodeType::Directory, ..file_meta("bin", 0o755, 0, "0", "B") };
    assert_eq!(f.format_name(&dir, "D", &plain_theme()), "D  bin/");
    assert_eq!(f.format_name(&dir, "D", &marked_theme()), "<dir>D  bin/</dir>");
}

#[test]
fn directory_permissions_under_canonical_masks() {
    let f = Formatter::new();
    let dir = Meta { node_type: NodeType::Directory, ..file_meta("bin", 0o755, 0, "0", "B") };
    assert_eq!(f.format_permissions(&dir, &classic_elems()), "drwxr-xr-x");
    let open_dir = Meta { node_type: NodeType::Directory, ..file_meta("pub", 0o777, 0, "0", "B") };
    assert_eq!(f.format_permissions(&open_dir, &classic_elems()), "drwxrwxrwx");
}

#[test]
fn file_name_uses_unrecognized_file_style() {
    let f = Formatter::new();
    let meta = file_meta("a.txt", 0o644, 500, "500", "B");
    assert_eq!(f.format_name(&meta, "F", &marked_theme()), "<file>F  a.txt</file>");
}

#[test]
fn small_file_size_cell_is_padded_and_styled() {
    let f = Formatter::new();
    let meta = file_meta("a.txt", 0o644, 500, "500", "B");
    assert_eq!(f.format_size(&meta, 5, 2, &plain_theme()), "  500 B ");
    assert_eq!(f.format_size(&meta, 5, 2, &marked_theme()), "<small>  500 B </small>");
}

#[test]
fn medium_and_large_size_styles() {
    let f = Formatter::new();
    let medium = file_meta("m", 0o644, 10 * 1044 * 1024, "10", "MB");
    assert_eq!(f.format_size(&medium, 3, 2, &marked_theme()), "<medium> 10 MB</medium>");
    let large = file_meta("l", 0o644, 100 * 1044 * 1024, "105", "MB");
    assert_eq!(f.format_size(&large, 3, 2, &marked_theme()), "<large>105 MB</large>");
}

#[test]
fn user_column_padded_when_short() {
    let f = Formatter::new();
    assert_eq!(f.format_user("ana", 6, &marked_theme()), "ana   ");
    assert_eq!(f.format_user("ana", 6, &marked_theme()).chars().count(), 6);
}

#[test]
fn user_column_styled_bare_at_exact_width() {
    let f = Formatter::new();
    assert_eq!(f.format_user("ana", 3, &marked_theme()), "<user>ana</user>");
}

#[test]
fn user_column_unpadded_when_over_width() {
    let f = Formatter::new();
    assert_eq!(f.format_user("jonathan", 3, &marked_theme()), "jonathan");
}

#[test]
fn group_column_paths() {
    let f = Formatter::new();
    assert_eq!(f.format_group("staff", 8, &marked_theme()), "staff   ");
    assert_eq!(f.format_group("staff", 5, &marked_theme()), "<group>staff</group>");
}

#[test]
fn date_at_epoch_renders_fixed_calendar_string() {
    let f = Formatter::new();
    let meta = file_meta("a", 0o644, 0, "0", "B");
    let rendered = f.format_date(&meta, 0, &marked_theme()).unwrap();
    assert_eq!(rendered, "<hour>Thu Jan  1 00:00:00 1970</hour>");
}

#[test]
fn date_buckets_pick_their_styles() {
    let f = Formatter::new();
    let now: i64 = 1_593_561_600;
    let theme = marked_theme();
    let hour = Meta { modified_secs: Some(now - 10), ..file_meta("a", 0o644, 0, "0", "B") };
    assert!(f.format_date(&hour, now, &theme).unwrap().starts_with("<hour>"));
    let day = Meta { modified_secs: Some(now - 7200), ..file_meta("a", 0o644, 0, "0", "B") };
    assert!(f.format_date(&day, now, &theme).unwrap().starts_with("<day>"));
    let older = Meta { modified_secs: Some(now - 200_000), ..file_meta("a", 0o644, 0, "0", "B") };
    assert!(f.format_date(&older, now, &theme).unwrap().starts_with("<older>"));
}

#[test]
fn date_calendar_string_is_24_characters() {
    let f = Formatter::new();
    let meta = Meta { modified_secs: Some(1_593_561_600), ..file_meta("a", 0o644, 0, "0", "B") };
    let rendered = f.format_date(&meta, 1_593_561_600, &plain_theme()).unwrap();
    assert_eq!(rendered.chars().count(), 24);
    assert!(rendered.contains("2020"));
}

#[test]
fn date_errors() {
    let f = Formatter::new();
    let theme = plain_theme();
    let missing = Meta { modified_secs: None, ..file_meta("a", 0o644, 0, "0", "B") };
    assert_eq!(f.format_date(&missing, 0, &theme), Err(DateError::MetadataUnavailable));
    let before_epoch = Meta { modified_secs: Some(-1), ..file_meta("a", 0o644, 0, "0", "B") };
    assert_eq!(f.format_date(&before_epoch, 0, &theme), Err(DateError::TimestampOutOfRange));
    let far_future =
        Meta { modified_secs: Some(253_402_300_800), ..file_meta("a", 0o644, 0, "0", "B") };
    assert_eq!(f.format_date(&far_future, 0, &theme), Err(DateError::TimestampOutOfRange));
}
