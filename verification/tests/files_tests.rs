use music_core::command::{parse_action, tray_action, PlaybackCommand, TrayAction};
use music_core::file::{
    base_file_name, check_import_file, choose_scan_root, cover_data_url, cover_file_name,
    import_failure_line, import_report, is_music_extension, lyric_file_name, music_file_name,
    number_files, numbered_file_name, sanitize_filename, ImportCheck, ScanRoot,
};
use music_core::strutil::{replace_all, starts_with, str_eq, to_lower_char, u64_to_string};

#[test]
fn sanitize_replaces_forbidden_characters() {
    assert_eq!(sanitize_filename(r#"a\b/c:d*e?f"g<h>i|j"#).as_str(), "a_b_c_d_e_f_g_h_i_j");
    assert_eq!(sanitize_filename("plain name").as_str(), "plain name");
    assert_eq!(sanitize_filename("").as_str(), "");
    assert_eq!(sanitize_filename("美丽/歌").as_str(), "美丽_歌");
}

#[test]
fn download_file_names() {
    assert_eq!(
        music_file_name("AC/DC", "Back?").as_str(),
        "AC_DC - Back_.mp3"
    );
    assert_eq!(base_file_name("Artist - Song.mp3").as_str(), "Artist - Song");
    assert_eq!(cover_file_name("Artist - Song").as_str(), "Artist - Song.jpg");
    assert_eq!(lyric_file_name("Artist - Song").as_str(), "Artist - Song.lrc");
}

#[test]
fn music_extensions() {
    assert!(is_music_extension("mp3"));
    assert!(is_music_extension("MP3"));
    assert!(is_music_extension("Flac"));
    assert!(is_music_extension("wav"));
    assert!(is_music_extension("OGG"));
    assert!(!is_music_extension("aac"));
    assert!(!is_music_extension("mp4"));
    assert!(!is_music_extension(""));
}

#[test]
fn scanned_files_are_numbered_in_order() {
    let files = number_files(vec![
        String::from("a.mp3"),
        String::from("sub/b.flac"),
        String::from("c.ogg"),
    ]);
    assert_eq!(files.len(), 3);
    assert_eq!(files[0].id, 0);
    assert_eq!(files[0].file_name.as_str(), "a.mp3");
    assert_eq!(files[1].id, 1);
    assert_eq!(files[1].file_name.as_str(), "sub/b.flac");
    assert_eq!(files[2].id, 2);
}

#[test]
fn import_collision_names() {
    assert_eq!(numbered_file_name("song", 1, "mp3").as_str(), "song_1.mp3");
    assert_eq!(numbered_file_name("song", 12, "flac").as_str(), "song_12.flac");
}

#[test]
fn import_checks_and_failure_lines() {
    let missing = check_import_file(false, Some(&String::from("mp3")));
    assert!(matches!(missing, ImportCheck::Missing));
    assert_eq!(
        import_failure_line(&missing, "/x/a.mp3").unwrap().as_str(),
        "文件不存在: /x/a.mp3"
    );
    let bad = check_import_file(true, Some(&String::from("txt")));
    assert!(matches!(bad, ImportCheck::Unsupported));
    assert_eq!(
        import_failure_line(&bad, "/x/a.txt").unwrap().as_str(),
        "不支持的格式: /x/a.txt"
    );
    let none = check_import_file(true, None);
    assert!(matches!(none, ImportCheck::NoExtension));
    assert_eq!(
        import_failure_line(&none, "/x/a").unwrap().as_str(),
        "无法识别文件格式: /x/a"
    );
    let ok = check_import_file(true, Some(&String::from("WAV")));
    assert!(matches!(ok, ImportCheck::Accepted));
    assert!(import_failure_line(&ok, "/x/a.wav").is_none());
}

#[test]
fn import_report_message() {
    assert_eq!(import_report(3, &vec![]).as_str(), "成功导入 3 个文件");
    let failed = vec![String::from("文件不存在: /a"), String::from("不支持的格式: /b")];
    assert_eq!(
        import_report(1, &failed).as_str(),
        "成功导入 1 个文件\n失败的文件 (2):\n- 文件不存在: /a\n- 不支持的格式: /b"
    );
}

#[test]
fn scan_root_choice() {
    match choose_scan_root(Some(String::from("/pick")), Some(String::from("/d"))) {
        ScanRoot::Custom(p) => assert_eq!(p.as_str(), "/pick"),
        _ => panic!("an explicit path wins"),
    }
    match choose_scan_root(None, Some(String::from("/d"))) {
        ScanRoot::UnderDirectory(d) => assert_eq!(d.as_str(), "/d"),
        _ => panic!("the configured directory comes second"),
    }
    assert!(matches!(choose_scan_root(None, None), ScanRoot::AppDataMusic));
}

#[test]
fn cover_data_url_encoding() {
    // [1, 2, 3] is AQID in standard base64.
    assert_eq!(
        cover_data_url(&vec![1u8, 2, 3]).as_str(),
        "data:image/jpeg;base64,AQID"
    );
    assert_eq!(cover_data_url(&vec![]).as_str(), "data:image/jpeg;base64,");
    // Padding applies to a last group of one byte.
    assert_eq!(
        cover_data_url(&vec![255u8]).as_str(),
        "data:image/jpeg;base64,/w=="
    );
}

#[test]
fn command_dispatch() {
    match parse_action("play", Some(String::from("/m/a.mp3")), None) {
        Some(PlaybackCommand::Play(p)) => assert_eq!(p.as_str(), "/m/a.mp3"),
        _ => panic!("play with a path dispatches"),
    }
    assert!(parse_action("play", None, None).is_none());
    assert!(matches!(
        parse_action("recovery", None, None),
        Some(PlaybackCommand::Resume)
    ));
    assert!(matches!(
        parse_action("pause", None, None),
        Some(PlaybackCommand::Pause)
    ));
    match parse_action("volume", None, Some(7500)) {
        Some(PlaybackCommand::SetVolume(v)) => assert_eq!(v, 7500),
        _ => panic!("volume with a level dispatches"),
    }
    assert!(parse_action("volume", None, None).is_none());
    assert!(matches!(
        parse_action("quit", None, None),
        Some(PlaybackCommand::Stop)
    ));
    assert!(parse_action("dance", None, None).is_none());
}

#[test]
fn tray_dispatch() {
    assert!(matches!(tray_action("play"), TrayAction::ResumePlayback));
    assert!(matches!(tray_action("pause"), TrayAction::PausePlayback));
    assert!(matches!(tray_action("prev"), TrayAction::PreviousTrack));
    assert!(matches!(tray_action("next"), TrayAction::NextTrack));
    assert!(matches!(tray_action("show_hide"), TrayAction::ToggleWindow));
    assert!(matches!(tray_action("quit"), TrayAction::QuitApp));
    assert!(matches!(tray_action("other"), TrayAction::Unknown));
}

#[test]
fn string_helpers() {
    assert!(str_eq("abc", "abc"));
    assert!(!str_eq("abc", "abd"));
    assert!(!str_eq("abc", "ab"));
    assert!(starts_with("https://x", "https://"));
    assert!(!starts_with("http://x", "https://"));
    assert!(starts_with("abc", ""));
    assert_eq!(to_lower_char('A'), 'a');
    assert_eq!(to_lower_char('z'), 'z');
    assert_eq!(to_lower_char('_'), '_');
}

#[test]
fn decimal_rendering() {
    assert_eq!(u64_to_string(0).as_str(), "0");
    assert_eq!(u64_to_string(7).as_str(), "7");
    assert_eq!(u64_to_string(100).as_str(), "100");
    assert_eq!(u64_to_string(987654321).as_str(), "987654321");
    assert_eq!(
        u64_to_string(u64::MAX).as_str(),
        "18446744073709551615"
    );
}

#[test]
fn replace_occurrences() {
    assert_eq!(replace_all("a{size}b{size}", "{size}", "400").as_str(), "a400b400");
    assert_eq!(replace_all("no match", "{size}", "400").as_str(), "no match");
    assert_eq!(replace_all("aaa", "aa", "b").as_str(), "ba");
    assert_eq!(replace_all("x.mp3", ".mp3", "").as_str(), "x");
    assert_eq!(replace_all("abc", "", "zz").as_str(), "abc");
}
