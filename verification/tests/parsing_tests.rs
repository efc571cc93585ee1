use music_core::json::{parse_json, JsonValue};
use music_core::netease::{
    cover_search_term, extract_cover_url, extract_lyric, extract_lyric_decoded,
    extract_lyric_info, extract_search_result, extract_song_url, lyric_content_url,
    lyric_search_url, make_play_result, search_request_url, search_url, song_url_query,
    status_error_message, status_is_client_error, status_is_success,
};

fn parsed(text: &str) -> JsonValue {
    parse_json(text).expect("valid JSON")
}

#[test]
fn parse_json_reads_members() {
    let v = parsed(r#"{"code": 200, "name": "abc", "items": [1, 2], "flag": true}"#);
    assert_eq!(v.get_u64_or("code", 500), 200);
    assert_eq!(v.get_str("name").unwrap().as_str(), "abc");
    assert_eq!(v.get_array("items").unwrap().len(), 2);
    assert!(v.get("missing").is_none());
}

#[test]
fn parse_json_rejects_invalid_text() {
    assert!(parse_json("not json at all {").is_none());
    assert!(parse_json("").is_none());
}

#[test]
fn parse_json_numbers() {
    let v = parsed(r#"{"n": 7, "f": 1.5, "neg": -3}"#);
    assert_eq!(v.get_u64_or("n", 0), 7);
    // A fractional or negative number is not an unsigned integer: the
    // fallback applies.
    assert_eq!(v.get_u64_or("f", 11), 11);
    assert_eq!(v.get_u64_or("neg", 12), 12);
}

#[test]
fn song_url_success() {
    let v = parsed(
        r#"{"code": 200, "data": [{"code": 200, "url": "http://cdn.example.com/a.mp3"}]}"#,
    );
    assert_eq!(
        extract_song_url(&v).unwrap().as_str(),
        "http://cdn.example.com/a.mp3"
    );
}

#[test]
fn song_url_errors() {
    let v = parsed(r#"{"code": 404}"#);
    assert_eq!(extract_song_url(&v).unwrap_err(), "API return error: code 404");
    let v = parsed(r#"{}"#);
    assert_eq!(extract_song_url(&v).unwrap_err(), "API return error: code 500");
    let v = parsed(r#"{"code": 200}"#);
    assert_eq!(extract_song_url(&v).unwrap_err(), "No data array in response");
    let v = parsed(r#"{"code": 200, "data": []}"#);
    assert_eq!(extract_song_url(&v).unwrap_err(), "Data array is empty");
    let v = parsed(r#"{"code": 200, "data": [{"code": 403}]}"#);
    assert_eq!(extract_song_url(&v).unwrap_err(), "Song data error: code 403");
    let v = parsed(r#"{"code": 200, "data": [{"code": 200}]}"#);
    assert_eq!(extract_song_url(&v).unwrap_err(), "No URL in song data");
    let v = parsed(r#"{"code": 200, "data": [{"code": 200, "url": ""}]}"#);
    assert_eq!(extract_song_url(&v).unwrap_err(), "Empty song URL");
}

#[test]
fn search_result_full_entry() {
    let v = parsed(
        r#"{"code": 200, "result": {"songCount": 3, "songs": [
            {"id": 42, "name": "Song A", "artists": [{"name": "X"}, {"name": "Y"}],
             "album": {"name": "Alb"}, "duration": 123456}
        ]}}"#,
    );
    let r = extract_search_result(&v).unwrap();
    assert_eq!(r.total, 3);
    assert_eq!(r.songs.len(), 1);
    let s = &r.songs[0];
    assert_eq!(s.id.as_str(), "42");
    assert_eq!(s.file_hash.as_str(), "42");
    assert_eq!(s.name.as_str(), "Song A");
    assert_eq!(s.artists, vec![String::from("X"), String::from("Y")]);
    assert_eq!(s.album.as_str(), "Alb");
    assert_eq!(s.duration, 123456);
    assert_eq!(s.pic_url.as_str(), "");
}

#[test]
fn search_result_defaults_and_skips() {
    let v = parsed(
        r#"{"code": 200, "result": {"songs": [
            {"name": "no id, skipped"},
            {"id": 7},
            {"id": 8, "artists": [{"nickname": "no name member"}]}
        ]}}"#,
    );
    let r = extract_search_result(&v).unwrap();
    assert_eq!(r.total, 0);
    assert_eq!(r.songs.len(), 2);
    let s = &r.songs[0];
    assert_eq!(s.id.as_str(), "7");
    assert_eq!(s.name.as_str(), "unknown");
    assert_eq!(s.artists, vec![String::from("unknown artist")]);
    assert_eq!(s.album.as_str(), "unknown album");
    assert_eq!(s.duration, 0);
    // An artists array without name members yields no artists at all.
    assert!(r.songs[1].artists.is_empty());
}

#[test]
fn search_result_errors() {
    let v = parsed(r#"{"code": 502}"#);
    assert_eq!(
        extract_search_result(&v).unwrap_err(),
        "API return error: code 502"
    );
    let v = parsed(r#"{"code": 200}"#);
    assert_eq!(extract_search_result(&v).unwrap_err(), "No result data");
    let v = parsed(r#"{"code": 200, "result": {}}"#);
    assert_eq!(extract_search_result(&v).unwrap_err(), "No songs array");
}

#[test]
fn lyric_info_success_and_errors() {
    let v = parsed(
        r#"{"status": 200, "candidates": [{"id": "77", "accesskey": "KEY"}]}"#,
    );
    let info = extract_lyric_info(&v).unwrap();
    assert_eq!(info.id.as_str(), "77");
    assert_eq!(info.accesskey.as_str(), "KEY");

    let v = parsed(r#"{"status": 500, "errmsg": "boom"}"#);
    assert_eq!(extract_lyric_info(&v).unwrap_err(), "API return error: boom");
    let v = parsed(r#"{"status": 500}"#);
    assert_eq!(
        extract_lyric_info(&v).unwrap_err(),
        "API return error: unknown error"
    );
    let v = parsed(r#"{"status": 200}"#);
    assert_eq!(extract_lyric_info(&v).unwrap_err(), "No candidates found");
    let v = parsed(r#"{"status": 200, "candidates": []}"#);
    assert_eq!(
        extract_lyric_info(&v).unwrap_err(),
        "No lyric candidates available"
    );
    let v = parsed(r#"{"status": 200, "candidates": [{"accesskey": "k"}]}"#);
    assert_eq!(extract_lyric_info(&v).unwrap_err(), "No lyric id");
    let v = parsed(r#"{"status": 200, "candidates": [{"id": "1"}]}"#);
    assert_eq!(extract_lyric_info(&v).unwrap_err(), "No accesskey");
}

#[test]
fn lyric_content_and_defaults() {
    let v = parsed(
        r#"{"status": 200, "content": "[00:01] la", "fmt": "krc", "contenttype": 2, "charset": "gbk"}"#,
    );
    let l = extract_lyric(&v).unwrap();
    assert_eq!(l.content.as_str(), "[00:01] la");
    assert_eq!(l.fmt.as_str(), "krc");
    assert_eq!(l.contenttype, 2);
    assert_eq!(l.charset.as_str(), "gbk");

    let v = parsed(r#"{"status": 200, "content": "x"}"#);
    let l = extract_lyric(&v).unwrap();
    assert_eq!(l.fmt.as_str(), "lrc");
    assert_eq!(l.contenttype, 1);
    assert_eq!(l.charset.as_str(), "utf8");

    let v = parsed(r#"{"status": 200}"#);
    assert_eq!(extract_lyric(&v).unwrap_err(), "No lyric content");
    let v = parsed(r#"{"status": 404, "error": "gone"}"#);
    assert_eq!(extract_lyric(&v).unwrap_err(), "API return error: gone");
}

#[test]
fn lyric_decoded() {
    let v = parsed(r#"{"decodeContent": "plain words"}"#);
    assert_eq!(extract_lyric_decoded(&v).unwrap().as_str(), "plain words");
    let v = parsed(r#"{"status": 200}"#);
    assert_eq!(
        extract_lyric_decoded(&v).unwrap_err(),
        "No decoded lyric content"
    );
}

#[test]
fn cover_url_and_size_placeholder() {
    let v = parsed(
        r#"{"error_code": 0, "data": {"lists": [{"Image": "http://img/{size}/x.jpg"}]}}"#,
    );
    assert_eq!(
        extract_cover_url(&v).unwrap().as_str(),
        "http://img/400/x.jpg"
    );
}

#[test]
fn cover_url_errors_and_empty() {
    let v = parsed(r#"{"error_code": 1}"#);
    assert_eq!(extract_cover_url(&v).unwrap_err(), "Cover image API error");
    let v = parsed(r#"{}"#);
    assert_eq!(extract_cover_url(&v).unwrap_err(), "Cover image API error");
    let v = parsed(r#"{"error_code": 0}"#);
    assert_eq!(
        extract_cover_url(&v).unwrap_err(),
        "No data in cover image response"
    );
    let v = parsed(r#"{"error_code": 0, "data": {}}"#);
    assert_eq!(
        extract_cover_url(&v).unwrap_err(),
        "No song lists in cover image response"
    );
    let v = parsed(r#"{"error_code": 0, "data": {"lists": []}}"#);
    assert_eq!(
        extract_cover_url(&v).unwrap_err(),
        "No songs found for cover image"
    );
    let v = parsed(r#"{"error_code": 0, "data": {"lists": [{}]}}"#);
    assert_eq!(extract_cover_url(&v).unwrap().as_str(), "");
}

#[test]
fn request_urls() {
    assert_eq!(
        search_url("http://localhost:3000", "hello", 7, 1).as_str(),
        "http://localhost:3000/search?keywords=hello&limit=7&offset=1"
    );
    assert_eq!(
        search_request_url(None, "abc", None, None).as_str(),
        "http://localhost:3000/search?keywords=abc&limit=7&offset=1"
    );
    assert_eq!(
        search_request_url(Some(String::from("http://h:9")), "k", Some(3), Some(20)).as_str(),
        "http://h:9/search?keywords=k&limit=20&offset=3"
    );
    assert_eq!(
        song_url_query("12345").as_str(),
        "http://localhost:3000/song/url?id=12345&level=exhigh"
    );
    assert_eq!(
        lyric_search_url("HASH").as_str(),
        "http://localhost:3000/search/lyric?hash=HASH"
    );
    assert_eq!(
        lyric_content_url("9", "AK").as_str(),
        "http://localhost:3000/lyric?id=9&accesskey=AK&decode=true&fmt=lrc"
    );
    assert_eq!(cover_search_term("Name", "Artist").as_str(), "Name Artist");
}

#[test]
fn play_result_assembly() {
    let r = make_play_result(
        String::from("http://u"),
        String::from("1"),
        String::from("n"),
        String::from("a"),
    );
    assert_eq!(r.url.as_str(), "http://u");
    assert_eq!(r.id.as_str(), "1");
    assert_eq!(r.name.as_str(), "n");
    assert_eq!(r.artist.as_str(), "a");
}

#[test]
fn status_classes() {
    assert!(status_is_success(200));
    assert!(status_is_success(299));
    assert!(!status_is_success(300));
    assert!(!status_is_success(199));
    assert!(status_is_client_error(404));
    assert!(!status_is_client_error(500));
    assert_eq!(
        status_error_message(404).as_str(),
        "API request error: HTTP 404"
    );
}
