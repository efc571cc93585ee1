//! File-side logic of the music library: which files count as music, how
//! downloaded tracks and their cover and lyric files are named, how scanned
//! files are numbered, and how an import is validated and reported.
//!
//! Walking directories, copying and writing files is I/O and stays with the
//! caller; every rule it applies comes from here.

use vstd::prelude::*;

use crate::strutil::{
    lower_seq, push_char, spec_dec, spec_replace, u64_to_string,
};

verus! {

use vstd::string::*;

/// One music file found by a scan, numbered in the order it was found.
#[derive(Debug)]
pub struct MusicFile {
    pub id: i32,
    pub file_name: String,
}

/// Mathematical image of [`MusicFile`].
pub ghost struct MusicFileView {
    pub id: i32,
    pub file_name: Seq<char>,
}

impl View for MusicFile {
    type V = MusicFileView;

    open spec fn view(&self) -> MusicFileView {
        MusicFileView { id: self.id, file_name: self.file_name@ }
    }
}

/// A character a file name may not carry; it is replaced by an underscore.
pub open spec fn spec_sanitize_char(c: char) -> char {
    match c {
        '\\' => '_',
        '/' => '_',
        ':' => '_',
        '*' => '_',
        '?' => '_',
        '"' => '_',
        '<' => '_',
        '>' => '_',
        '|' => '_',
        _ => c,
    }
}

/// A name with every character a file name may not carry replaced by an
/// underscore.
pub open spec fn spec_sanitize(s: Seq<char>) -> Seq<char> {
    s.map_values(|c: char| spec_sanitize_char(c))
}

/// Cleans a name for use as a file name.
pub fn sanitize_filename(name: &str) -> (r: String)
    ensures
        r@ == spec_sanitize(name@),
{
    let n = name.unicode_len();
    let mut out = String::new();
    for i in 0..n
        invariant
            n == name@.len(),
            out@ =~= spec_sanitize(name@.subrange(0, i as int)),
    {
        let c = name.get_char(i);
        let clean = match c {
            '\\' => '_',
            '/' => '_',
            ':' => '_',
            '*' => '_',
            '?' => '_',
            '"' => '_',
            '<' => '_',
            '>' => '_',
            '|' => '_',
            _ => c,
        };
        push_char(&mut out, clean);
        proof {
            assert(out@ =~= spec_sanitize(name@.subrange(0, i + 1)));
        }
    }
    proof {
        assert(name@.subrange(0, name@.len() as int) =~= name@);
    }
    out
}

/// The file a downloaded song is stored under: the sanitized artist, a
/// dash, the sanitized title, as an mp3.
pub fn music_file_name(artist: &str, song_name: &str) -> (r: String)
    ensures
        r@ == spec_sanitize(artist@) + " - "@ + spec_sanitize(song_name@) + ".mp3"@,
{
    let mut s = sanitize_filename(artist);
    s.append(" - ");
    s.append(sanitize_filename(song_name).as_str());
    s.append(".mp3");
    s
}

/// The stem shared by a track's cover and lyric files: its file name with
/// the mp3 suffix dropped.
pub fn base_file_name(file_name: &str) -> (r: String)
    ensures
        r@ == spec_replace(file_name@, ".mp3"@, Seq::empty()),
{
    let r = crate::strutil::replace_all(file_name, ".mp3", "");
    proof {
        reveal_strlit("");
        assert(""@ =~= Seq::<char>::empty());
    }
    r
}

/// The cover image stored beside a track: its stem as a jpg.
pub fn cover_file_name(base: &str) -> (r: String)
    ensures
        r@ == base@ + ".jpg"@,
{
    let mut s = base.to_owned();
    s.append(".jpg");
    s
}

/// The lyric file stored beside a track: its stem as an lrc.
pub fn lyric_file_name(base: &str) -> (r: String)
    ensures
        r@ == base@ + ".lrc"@,
{
    let mut s = base.to_owned();
    s.append(".lrc");
    s
}

/// The file extensions, case-folded, that the library treats as music.
pub open spec fn spec_is_music_ext(ext: Seq<char>) -> bool {
    ||| lower_seq(ext) == "mp3"@
    ||| lower_seq(ext) == "wav"@
    ||| lower_seq(ext) == "ogg"@
    ||| lower_seq(ext) == "flac"@
}

/// Whether a file extension names a music format, ignoring ASCII case.
pub fn is_music_extension(ext: &str) -> (r: bool)
    ensures
        r == spec_is_music_ext(ext@),
{
    crate::strutil::eq_ignore_ascii_case(ext, "mp3")
        || crate::strutil::eq_ignore_ascii_case(ext, "wav")
        || crate::strutil::eq_ignore_ascii_case(ext, "ogg")
        || crate::strutil::eq_ignore_ascii_case(ext, "flac")
}

/// Numbers the scanned file names in the order they were found, starting
/// at 0.
pub fn number_files(names: Vec<String>) -> (r: Vec<MusicFile>)
    requires
        names@.len() <= i32::MAX,
    ensures
        r@.len() == names@.len(),
        forall|i: int|
            0 <= i < r@.len() ==> (#[trigger] r@[i]).id as int == i && r@[i].file_name@
                == names@[i]@,
{
    let mut out: Vec<MusicFile> = Vec::new();
    let n = names.len();
    for i in 0..n
        invariant
            n == names@.len(),
            n <= i32::MAX,
            out@.len() == i,
            forall|j: int|
                0 <= j < i ==> (#[trigger] out@[j]).id as int == j && out@[j].file_name@
                    == names@[j]@,
    {
        out.push(MusicFile { id: i as i32, file_name: names[i].clone() });
    }
    out
}

/// The candidate name tried for an import whose target already exists: the
/// stem, an underscore, the collision counter, a dot, the extension.
pub fn numbered_file_name(stem: &str, counter: u64, ext: &str) -> (r: String)
    ensures
        r@ == stem@ + "_"@ + spec_dec(counter as int) + "."@ + ext@,
{
    let mut s = stem.to_owned();
    s.append("_");
    s.append(u64_to_string(counter).as_str());
    s.append(".");
    s.append(ext);
    s
}

/// Why one file of an import was skipped, or that it may be copied.
pub enum ImportCheck {
    /// The file may be imported.
    Accepted,
    /// The source path does not exist.
    Missing,
    /// The extension is not a music format.
    Unsupported,
    /// The file has no recognizable extension.
    NoExtension,
}

/// The failure line recorded for one skipped import, if any: the reason,
/// a colon and space in its message, then the path.
pub open spec fn spec_import_failure(
    check: ImportCheck,
    path: Seq<char>,
) -> Option<Seq<char>> {
    match check {
        ImportCheck::Accepted => Option::None,
        ImportCheck::Missing => Option::Some("文件不存在: "@ + path),
        ImportCheck::Unsupported => Option::Some("不支持的格式: "@ + path),
        ImportCheck::NoExtension => Option::Some("无法识别文件格式: "@ + path),
    }
}

/// Validates one file of an import: it must exist — which the caller read
/// from the filesystem — and carry a music extension.
pub fn check_import_file(exists: bool, extension: Option<&String>) -> (r: ImportCheck)
    ensures
        r == (if !exists {
            ImportCheck::Missing
        } else {
            match extension {
                Option::Some(e) => if spec_is_music_ext(e@) {
                    ImportCheck::Accepted
                } else {
                    ImportCheck::Unsupported
                },
                Option::None => ImportCheck::NoExtension,
            }
        }),
{
    if !exists {
        return ImportCheck::Missing;
    }
    match extension {
        Option::Some(e) => {
            if is_music_extension(e.as_str()) {
                ImportCheck::Accepted
            } else {
                ImportCheck::Unsupported
            }
        },
        Option::None => ImportCheck::NoExtension,
    }
}

/// The failure line for one skipped import.
pub fn import_failure_line(check: &ImportCheck, path: &str) -> (r: Option<String>)
    ensures
        match r {
            Option::Some(s) => spec_import_failure(*check, path@) == Option::Some(s@),
            Option::None => spec_import_failure(*check, path@) is None,
        },
{
    match check {
        ImportCheck::Accepted => Option::None,
        ImportCheck::Missing => {
            let mut s = ("文件不存在: ").to_owned();
            s.append(path);
            Option::Some(s)
        },
        ImportCheck::Unsupported => {
            let mut s = ("不支持的格式: ").to_owned();
            s.append(path);
            Option::Some(s)
        },
        ImportCheck::NoExtension => {
            let mut s = ("无法识别文件格式: ").to_owned();
            s.append(path);
            Option::Some(s)
        },
    }
}

/// The per-file lines of an import report: each failure on its own line,
/// led in by a dash.
pub open spec fn spec_failure_lines(failed: Seq<Seq<char>>) -> Seq<char>
    decreases failed.len(),
{
    if failed.len() == 0 {
        Seq::empty()
    } else {
        "\n- "@ + failed[0] + spec_failure_lines(failed.drop_first())
    }
}

/// The message reported after an import: the count of files brought in,
/// and, when any file was skipped, their count and one line for each.
pub open spec fn spec_import_report(imported: int, failed: Seq<Seq<char>>) -> Seq<char> {
    let head = "成功导入 "@ + spec_dec(imported) + " 个文件"@;
    if failed.len() == 0 {
        head
    } else {
        head + "\n失败的文件 ("@ + spec_dec(failed.len() as int) + "):"@ + spec_failure_lines(
            failed,
        )
    }
}

/// Builds the message reported after an import.
pub fn import_report(imported: u64, failed: &Vec<String>) -> (r: String)
    ensures
        r@ == spec_import_report(imported as int, failed@.map_values(|s: String| s@)),
{
    let ghost fv = failed@.map_values(|s: String| s@);
    let mut s = ("成功导入 ").to_owned();
    s.append(u64_to_string(imported).as_str());
    s.append(" 个文件");
    if failed.len() == 0 {
        proof {
            assert(fv.len() == 0);
        }
        return s;
    }
    s.append("\n失败的文件 (");
    s.append(u64_to_string(failed.len() as u64).as_str());
    s.append("):");
    let n = failed.len();
    proof {
        assert(fv.skip(0) =~= fv);
    }
    for i in 0..n
        invariant
            n == failed@.len(),
            fv == failed@.map_values(|s: String| s@),
            fv.len() == n,
            s@ + spec_failure_lines(fv.skip(i as int)) == spec_import_report(
                imported as int,
                fv,
            ),
    {
        proof {
            assert(fv.skip(i as int)[0] == fv[i as int]);
            assert(fv.skip(i as int).drop_first() =~= fv.skip(i + 1));
        }
        s.append("\n- ");
        s.append(failed[i].as_str());
    }
    proof {
        assert(spec_failure_lines(fv.skip(n as int)) =~= Seq::<char>::empty());
        assert(s@ =~= s@ + spec_failure_lines(fv.skip(n as int)));
    }
    s
}

/// Where a scan starts: the explicitly chosen path, else the music folder
/// under the configured directory, else the application's own music folder.
pub enum ScanRoot {
    /// Scan this path as given.
    Custom(String),
    /// Scan the `music` folder under this directory.
    UnderDirectory(String),
    /// Scan the application data directory's `music` folder.
    AppDataMusic,
}

/// Decides where a scan starts from the two optional arguments of the scan
/// command.
pub fn choose_scan_root(path: Option<String>, default_directory: Option<String>) -> (r: ScanRoot)
    ensures
        r == match path {
            Option::Some(p) => ScanRoot::Custom(p),
            Option::None => match default_directory {
                Option::Some(d) => ScanRoot::UnderDirectory(d),
                Option::None => ScanRoot::AppDataMusic,
            },
        },
{
    match path {
        Option::Some(p) => ScanRoot::Custom(p),
        Option::None => match default_directory {
            Option::Some(d) => ScanRoot::UnderDirectory(d),
            Option::None => ScanRoot::AppDataMusic,
        },
    }
}

/// The standard base64 encoding, with padding, of a byte sequence: what the
/// encoder answers, a function of the bytes alone.
pub uninterp spec fn b64_standard(bytes: Seq<u8>) -> Seq<char>;

/// Encodes bytes in standard base64 with padding.
///
/// Relies on base64's STANDARD engine: four output characters for every
/// three input bytes, the last group padded.
#[verifier::external_body]
fn base64_encode(bytes: &Vec<u8>) -> (r: String)
    ensures
        r@ == b64_standard(bytes@),
        r@.len() == 4 * ((bytes@.len() + 2) / 3),
{
    base64::engine::Engine::encode(&base64::engine::general_purpose::STANDARD, bytes)
}

/// The inline data URL a cover image is handed to the UI as.
pub fn cover_data_url(bytes: &Vec<u8>) -> (r: String)
    ensures
        r@ == "data:image/jpeg;base64,"@ + b64_standard(bytes@),
{
    let mut s = ("data:image/jpeg;base64,").to_owned();
    s.append(base64_encode(bytes).as_str());
    s
}

} // verus!
