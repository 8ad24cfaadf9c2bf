use pedump::name::{base_name, dump_file_name, file_stem, output_file_name, timestamped_file_name};

#[test]
fn base_name_cuts_the_extension_of_the_module_name() {
    assert_eq!(base_name("app.exe", None), "app");
}

#[test]
fn base_name_keeps_a_name_without_dot() {
    assert_eq!(base_name("app", None), "app");
    assert_eq!(base_name("", None), "");
    assert_eq!(base_name("some module", None), "some module");
}

#[test]
fn base_name_takes_the_override_as_it_is() {
    assert_eq!(base_name("app.exe", Some(String::from("mine"))), "mine");
    assert_eq!(base_name("app", Some(String::from("other.bin"))), "other.bin");
    assert_eq!(base_name("app.exe", Some(String::new())), "");
}

#[test]
fn file_stem_cuts_at_the_last_dot_only() {
    assert_eq!(file_stem("a.b.c"), "a.b");
    assert_eq!(file_stem("archive.tar.gz"), "archive.tar");
    assert_eq!(file_stem("app."), "app");
    assert_eq!(file_stem(".hidden"), "");
    assert_eq!(file_stem("."), "");
    assert_eq!(file_stem(".."), ".");
    assert_eq!(file_stem("nodot"), "nodot");
}

#[test]
fn file_stem_counts_characters_not_bytes() {
    assert_eq!(file_stem("módulo.exe"), "módulo");
    assert_eq!(file_stem("日本語.dll"), "日本語");
    assert_eq!(file_stem("é.ü.ß"), "é.ü");
}

#[test]
fn dump_file_name_joins_base_timestamp_and_suffix() {
    assert_eq!(dump_file_name("app", "2024-01-02-030405"), "app_2024-01-02-030405_dump.exe");
    assert_eq!(dump_file_name("", ""), "__dump.exe");
}

#[test]
fn output_file_name_for_a_given_timestamp() {
    assert_eq!(
        output_file_name("sample.exe", None, "2023-11-05-235959"),
        "sample_2023-11-05-235959_dump.exe"
    );
    assert_eq!(
        output_file_name("sample.exe", Some(String::from("chosen")), "2023-11-05-235959"),
        "chosen_2023-11-05-235959_dump.exe"
    );
    assert_eq!(
        output_file_name("sample", None, "1999-12-31-000000"),
        "sample_1999-12-31-000000_dump.exe"
    );
}

#[test]
fn timestamped_file_name_has_a_utc_timestamp_in_the_middle() {
    let name = timestamped_file_name("sample.exe", None);
    let rest = name.strip_prefix("sample_").unwrap();
    let stamp = rest.strip_suffix("_dump.exe").unwrap();
    let shape: String = stamp.chars().map(|c| if c.is_ascii_digit() { '9' } else { c }).collect();
    assert_eq!(shape, "9999-99-99-999999");
    let month: u32 = stamp[5..7].parse().unwrap();
    let day: u32 = stamp[8..10].parse().unwrap();
    let hour: u32 = stamp[11..13].parse().unwrap();
    let minute: u32 = stamp[13..15].parse().unwrap();
    let second: u32 = stamp[15..17].parse().unwrap();
    assert!((1..=12).contains(&month));
    assert!((1..=31).contains(&day));
    assert!(hour < 24 && minute < 60 && second <= 60);
    let year: i32 = stamp[0..4].parse().unwrap();
    assert!(year >= 2024);
}

#[test]
fn timestamped_file_name_agrees_with_the_clock() {
    let before = chrono::Utc::now().format("%Y-%m-%d-%H%M%S").to_string();
    let name = timestamped_file_name("x.exe", Some(String::from("o")));
    let after = chrono::Utc::now().format("%Y-%m-%d-%H%M%S").to_string();
    let stamp = name.strip_prefix("o_").unwrap().strip_suffix("_dump.exe").unwrap().to_string();
    assert!(before <= stamp && stamp <= after, "{before} <= {stamp} <= {after}");
}
