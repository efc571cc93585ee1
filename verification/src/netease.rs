//! Types and verified parsing for the metadata proxy service: song search,
//! playable stream URLs, cover art and lyrics.
//!
//! The service is an HTTP endpoint returning JSON. Fetching is I/O and stays
//! with the caller; this module builds the request URLs and extracts the
//! answers from the parsed [`JsonValue`](crate::json::JsonValue) tree, with
//! the exact success and error behaviour stated in each contract.

use vstd::prelude::*;

use crate::json::{
    spec_get, spec_get_arr, spec_get_str, spec_get_u64, spec_get_u64_or, JsonValue,
};
use crate::strutil::spec_dec;

verus! {

use vstd::string::*;

/// One song in a search answer.
#[derive(Debug, Clone)]
pub struct SongInfo {
    pub id: String,
    pub name: String,
    pub artists: Vec<String>,
    pub album: String,
    /// Track length in milliseconds.
    pub duration: u64,
    pub pic_url: String,
    /// Hash used to look the song up; the proxy uses the id for it.
    pub file_hash: String,
}

/// Mathematical image of [`SongInfo`].
pub ghost struct SongInfoView {
    pub id: Seq<char>,
    pub name: Seq<char>,
    pub artists: Seq<Seq<char>>,
    pub album: Seq<char>,
    pub duration: u64,
    pub pic_url: Seq<char>,
    pub file_hash: Seq<char>,
}

impl View for SongInfo {
    type V = SongInfoView;

    open spec fn view(&self) -> SongInfoView {
        SongInfoView {
            id: self.id@,
            name: self.name@,
            artists: self.artists@.map_values(|s: String| s@),
            album: self.album@,
            duration: self.duration,
            pic_url: self.pic_url@,
            file_hash: self.file_hash@,
        }
    }
}

/// Answer of a song search.
#[derive(Debug)]
pub struct SearchResult {
    pub songs: Vec<SongInfo>,
    pub total: u32,
}

/// Mathematical image of [`SearchResult`].
pub ghost struct SearchResultView {
    pub songs: Seq<SongInfoView>,
    pub total: u32,
}

impl View for SearchResult {
    type V = SearchResultView;

    open spec fn view(&self) -> SearchResultView {
        SearchResultView {
            songs: self.songs@.map_values(|s: SongInfo| s@),
            total: self.total,
        }
    }
}

/// Where a song's lyric can be fetched from.
#[derive(Debug)]
pub struct LyricInfo {
    pub id: String,
    pub accesskey: String,
}

/// Mathematical image of [`LyricInfo`].
pub ghost struct LyricInfoView {
    pub id: Seq<char>,
    pub accesskey: Seq<char>,
}

impl View for LyricInfo {
    type V = LyricInfoView;

    open spec fn view(&self) -> LyricInfoView {
        LyricInfoView { id: self.id@, accesskey: self.accesskey@ }
    }
}

/// A fetched lyric.
#[derive(Debug)]
pub struct Lyric {
    pub content: String,
    pub fmt: String,
    pub contenttype: u32,
    pub charset: String,
}

/// Mathematical image of [`Lyric`].
pub ghost struct LyricView {
    pub content: Seq<char>,
    pub fmt: Seq<char>,
    pub contenttype: u32,
    pub charset: Seq<char>,
}

impl View for Lyric {
    type V = LyricView;

    open spec fn view(&self) -> LyricView {
        LyricView {
            content: self.content@,
            fmt: self.fmt@,
            contenttype: self.contenttype,
            charset: self.charset@,
        }
    }
}

/// Everything needed to start playing one online song.
#[derive(Debug)]
pub struct PlaySongResult {
    pub url: String,
    pub id: String,
    pub name: String,
    pub artist: String,
}

/// Mathematical image of [`PlaySongResult`].
pub ghost struct PlaySongResultView {
    pub url: Seq<char>,
    pub id: Seq<char>,
    pub name: Seq<char>,
    pub artist: Seq<char>,
}

impl View for PlaySongResult {
    type V = PlaySongResultView;

    open spec fn view(&self) -> PlaySongResultView {
        PlaySongResultView {
            url: self.url@,
            id: self.id@,
            name: self.name@,
            artist: self.artist@,
        }
    }
}

/// Whether an HTTP status code reports success: the 2xx class.
pub fn status_is_success(code: u16) -> (r: bool)
    ensures
        r == (200 <= code < 300),
{
    200 <= code && code < 300
}

/// Whether an HTTP status code reports a client error: the 4xx class. A
/// response in it fails the request it answers.
pub fn status_is_client_error(code: u16) -> (r: bool)
    ensures
        r == (400 <= code < 500),
{
    400 <= code && code < 500
}

/// The error reported for a client-error response of the proxy.
pub fn status_error_message(code: u16) -> (r: String)
    ensures
        r@ == "API request error: HTTP "@ + spec_dec(code as int),
{
    let mut s = ("API request error: HTTP ").to_owned();
    s.append(crate::strutil::u64_to_string(code as u64).as_str());
    s
}

/// The search endpoint URL for a base URL, keywords and paging.
pub open spec fn spec_search_url(
    api_base: Seq<char>,
    keywords: Seq<char>,
    pagesize: int,
    page: int,
) -> Seq<char> {
    api_base + "/search?keywords="@ + keywords + "&limit="@ + spec_dec(pagesize) + "&offset="@
        + spec_dec(page)
}

/// Builds the search endpoint URL.
pub fn search_url(api_base: &str, keywords: &str, pagesize: u32, page: u32) -> (r: String)
    ensures
        r@ == spec_search_url(api_base@, keywords@, pagesize as int, page as int),
{
    let mut s = api_base.to_owned();
    s.append("/search?keywords=");
    s.append(keywords);
    s.append("&limit=");
    s.append(crate::strutil::u64_to_string(pagesize as u64).as_str());
    s.append("&offset=");
    s.append(crate::strutil::u64_to_string(page as u64).as_str());
    s
}

/// The search URL as the search command builds it: a missing base URL falls
/// back to the local proxy, a missing page to 1, a missing page size to 7.
pub fn search_request_url(
    local_api: Option<String>,
    keywords: &str,
    page: Option<u32>,
    pagesize: Option<u32>,
) -> (r: String)
    ensures
        r@ == spec_search_url(
            match local_api {
                Option::Some(a) => a@,
                Option::None => "http://localhost:3000"@,
            },
            keywords@,
            match pagesize {
                Option::Some(n) => n as int,
                Option::None => 7,
            },
            match page {
                Option::Some(n) => n as int,
                Option::None => 1,
            },
        ),
{
    let base = match local_api {
        Option::Some(a) => a,
        Option::None => ("http://localhost:3000").to_owned(),
    };
    let ps: u32 = match pagesize {
        Option::Some(n) => n,
        Option::None => 7,
    };
    let p: u32 = match page {
        Option::Some(n) => n,
        Option::None => 1,
    };
    search_url(base.as_str(), keywords, ps, p)
}

/// The stream-URL endpoint for one song id, at the local proxy, at the
/// highest regular quality.
pub fn song_url_query(id: &str) -> (r: String)
    ensures
        r@ == "http://localhost:3000/song/url?id="@ + id@ + "&level=exhigh"@,
{
    let mut s = ("http://localhost:3000/song/url?id=").to_owned();
    s.append(id);
    s.append("&level=exhigh");
    s
}

/// The lyric-search endpoint for one song hash, at the local proxy.
pub fn lyric_search_url(hash: &str) -> (r: String)
    ensures
        r@ == "http://localhost:3000/search/lyric?hash="@ + hash@,
{
    let mut s = ("http://localhost:3000/search/lyric?hash=").to_owned();
    s.append(hash);
    s
}

/// The lyric-content endpoint for a lyric id and access key, at the local
/// proxy, decoded, in LRC format.
pub fn lyric_content_url(id: &str, accesskey: &str) -> (r: String)
    ensures
        r@ == "http://localhost:3000/lyric?id="@ + id@ + "&accesskey="@ + accesskey@
            + "&decode=true&fmt=lrc"@,
{
    let mut s = ("http://localhost:3000/lyric?id=").to_owned();
    s.append(id);
    s.append("&accesskey=");
    s.append(accesskey);
    s.append("&decode=true&fmt=lrc");
    s
}

/// The search term used to look a song's cover up: name, a space, artist.
pub fn cover_search_term(name: &str, artist: &str) -> (r: String)
    ensures
        r@ == name@ + " "@ + artist@,
{
    let mut s = name.to_owned();
    s.append(" ");
    s.append(artist);
    s
}

/// Assembles the answer for playing one online song from its resolved stream
/// URL and the song's own fields.
pub fn make_play_result(url: String, id: String, name: String, artist: String) -> (r:
    PlaySongResult)
    ensures
        r@ == (PlaySongResultView { url: url@, id: id@, name: name@, artist: artist@ }),
{
    PlaySongResult { url, id, name, artist }
}

/// What [`extract_song_url`] answers on a parsed stream-URL response: the
/// playable URL of the first song entry, or the first applicable error —
/// a non-200 answer code, a missing or empty data array, a non-200 song
/// code, and a missing or empty URL, in that order.
pub open spec fn spec_extract_song_url(v: JsonValue) -> Result<Seq<char>, Seq<char>> {
    let code = spec_get_u64_or(v, "code"@, 500);
    if code != 200 {
        Result::Err("API return error: code "@ + spec_dec(code as int))
    } else {
        match spec_get_arr(v, "data"@) {
            Option::None => Result::Err("No data array in response"@),
            Option::Some(data) => if data.len() == 0 {
                Result::Err("Data array is empty"@)
            } else {
                let song = data[0];
                let song_code = spec_get_u64_or(song, "code"@, 500);
                if song_code != 200 {
                    Result::Err("Song data error: code "@ + spec_dec(song_code as int))
                } else {
                    match spec_get_str(song, "url"@) {
                        Option::None => Result::Err("No URL in song data"@),
                        Option::Some(u) => if u.len() == 0 {
                            Result::Err("Empty song URL"@)
                        } else {
                            Result::Ok(u)
                        },
                    }
                }
            },
        }
    }
}

/// Extracts the playable stream URL from a parsed stream-URL response.
pub fn extract_song_url(v: &JsonValue) -> (r: Result<String, String>)
    ensures
        match r {
            Result::Ok(s) => spec_extract_song_url(*v) == Result::<Seq<char>, Seq<char>>::Ok(s@),
            Result::Err(e) => spec_extract_song_url(*v) == Result::<Seq<char>, Seq<char>>::Err(
                e@,
            ),
        },
{
    let code = v.get_u64_or("code", 500);
    if code != 200 {
        let mut msg = ("API return error: code ").to_owned();
        msg.append(crate::strutil::u64_to_string(code).as_str());
        return Result::Err(msg);
    }
    let data = match v.get_array("data") {
        Option::Some(a) => a,
        Option::None => {
            return Result::Err(("No data array in response").to_owned());
        },
    };
    if data.len() == 0 {
        return Result::Err(("Data array is empty").to_owned());
    }
    let song = &data[0];
    let song_code = song.get_u64_or("code", 500);
    if song_code != 200 {
        let mut msg = ("Song data error: code ").to_owned();
        msg.append(crate::strutil::u64_to_string(song_code).as_str());
        return Result::Err(msg);
    }
    let play_url = match song.get_str("url") {
        Option::Some(u) => u,
        Option::None => {
            return Result::Err(("No URL in song data").to_owned());
        },
    };
    if play_url.as_str().is_empty() {
        return Result::Err(("Empty song URL").to_owned());
    }
    Result::Ok(play_url.clone())
}

/// The artist names of a song entry's artist array: the `name` member of
/// each artist that has one, in order.
pub open spec fn spec_artist_names(a: Seq<JsonValue>) -> Seq<Seq<char>>
    decreases a.len(),
{
    if a.len() == 0 {
        Seq::empty()
    } else {
        match spec_get_str(a[0], "name"@) {
            Option::Some(n) => seq![n] + spec_artist_names(a.drop_first()),
            Option::None => spec_artist_names(a.drop_first()),
        }
    }
}

/// The artists recorded for a song entry: the names out of its artist
/// array, or a single "unknown artist" when the entry has no such array.
pub open spec fn spec_song_artists(song: JsonValue) -> Seq<Seq<char>> {
    match spec_get_arr(song, "artists"@) {
        Option::Some(arr) => spec_artist_names(arr),
        Option::None => seq!["unknown artist"@],
    }
}

/// The song built from one entry of a search answer, or `None` when the
/// entry has no unsigned-integer id and is skipped. The id — rendered in
/// decimal — doubles as the file hash; missing fields fall back to
/// "unknown", "unknown artist", "unknown album" or a duration of 0; the
/// cover URL is left empty, to be looked up on demand.
pub open spec fn spec_song_of(song: JsonValue) -> Option<SongInfoView> {
    match spec_get_u64(song, "id"@) {
        Option::None => Option::None,
        Option::Some(idn) => Option::Some(
            SongInfoView {
                id: spec_dec(idn as int),
                name: match spec_get_str(song, "name"@) {
                    Option::Some(n) => n,
                    Option::None => "unknown"@,
                },
                artists: spec_song_artists(song),
                album: match spec_get(song, "album"@) {
                    Option::Some(al) => match spec_get_str(al, "name"@) {
                        Option::Some(n) => n,
                        Option::None => "unknown album"@,
                    },
                    Option::None => "unknown album"@,
                },
                duration: spec_get_u64_or(song, "duration"@, 0),
                pic_url: Seq::empty(),
                file_hash: spec_dec(idn as int),
            },
        ),
    }
}

/// The songs built from the entries of a search answer, in order, skipping
/// entries without an id.
pub open spec fn spec_songs_of(a: Seq<JsonValue>) -> Seq<SongInfoView>
    decreases a.len(),
{
    if a.len() == 0 {
        Seq::empty()
    } else {
        match spec_song_of(a[0]) {
            Option::Some(s) => seq![s] + spec_songs_of(a.drop_first()),
            Option::None => spec_songs_of(a.drop_first()),
        }
    }
}

/// What [`extract_search_result`] answers on a parsed search response: the
/// songs of `result.songs` with the total count of `result.songCount`
/// (falling back to 0), or the first applicable error — a non-200 answer
/// code, a missing result member, a missing songs array, in that order.
pub open spec fn spec_extract_search(v: JsonValue) -> Result<SearchResultView, Seq<char>> {
    let code = spec_get_u64_or(v, "code"@, 500);
    if code != 200 {
        Result::Err("API return error: code "@ + spec_dec(code as int))
    } else {
        match spec_get(v, "result"@) {
            Option::None => Result::Err("No result data"@),
            Option::Some(result) => match spec_get_arr(result, "songs"@) {
                Option::None => Result::Err("No songs array"@),
                Option::Some(songs) => Result::Ok(
                    SearchResultView {
                        songs: spec_songs_of(songs),
                        total: (spec_get_u64_or(result, "songCount"@, 0) as u32),
                    },
                ),
            },
        }
    }
}

/// Collects the artist names out of one artist array.
fn artist_names(arr: &Vec<JsonValue>) -> (r: Vec<String>)
    ensures
        r@.map_values(|s: String| s@) == spec_artist_names(arr@),
{
    let mut out: Vec<String> = Vec::new();
    let n = arr.len();
    proof {
        assert(arr@.skip(0) =~= arr@);
        assert(out@.map_values(|s: String| s@) =~= Seq::<Seq<char>>::empty());
    }
    for i in 0..n
        invariant
            n == arr@.len(),
            spec_artist_names(arr@) == out@.map_values(|s: String| s@) + spec_artist_names(
                arr@.skip(i as int),
            ),
    {
        proof {
            assert(arr@.skip(i as int)[0] == arr@[i as int]);
            assert(arr@.skip(i as int).drop_first() =~= arr@.skip(i + 1));
        }
        let ghost prev = out@;
        match arr[i].get_str("name") {
            Option::Some(s) => {
                let owned = s.clone();
                let ghost nm = owned@;
                out.push(owned);
                proof {
                    assert(out@.map_values(|s: String| s@) =~= prev.map_values(
                        |s: String| s@,
                    ).push(nm));
                }
            },
            Option::None => {},
        }
        proof {
            assert(spec_artist_names(arr@) =~= out@.map_values(|s: String| s@)
                + spec_artist_names(arr@.skip(i + 1)));
        }
    }
    proof {
        assert(spec_artist_names(arr@.skip(n as int)) =~= Seq::<Seq<char>>::empty());
        assert(spec_artist_names(arr@) =~= out@.map_values(|s: String| s@));
    }
    out
}

/// Builds the song recorded for one entry of a search answer; `None` when
/// the entry is skipped for want of an id.
fn build_song(song: &JsonValue) -> (r: Option<SongInfo>)
    ensures
        match r {
            Option::Some(s) => spec_song_of(*song) == Option::Some(s@),
            Option::None => spec_song_of(*song) is None,
        },
{
    let idn = match song.get("id") {
        Option::Some(x) => match x.as_u64() {
            Option::Some(n) => n,
            Option::None => {
                return Option::None;
            },
        },
        Option::None => {
            return Option::None;
        },
    };
    let id = crate::strutil::u64_to_string(idn);
    let name = match song.get_str("name") {
        Option::Some(s) => s.clone(),
        Option::None => ("unknown").to_owned(),
    };
    let artists = match song.get_array("artists") {
        Option::Some(arr) => artist_names(arr),
        Option::None => {
            let mut one: Vec<String> = Vec::new();
            one.push(("unknown artist").to_owned());
            proof {
                assert(one@.map_values(|s: String| s@) =~= seq!["unknown artist"@]);
            }
            one
        },
    };
    let album = match song.get("album") {
        Option::Some(al) => match al.get_str("name") {
            Option::Some(s) => s.clone(),
            Option::None => ("unknown album").to_owned(),
        },
        Option::None => ("unknown album").to_owned(),
    };
    let duration = song.get_u64_or("duration", 0);
    Option::Some(
        SongInfo {
            id: id.clone(),
            name,
            artists,
            album,
            duration,
            pic_url: String::new(),
            file_hash: id,
        },
    )
}

/// Extracts the songs and total count from a parsed search response.
pub fn extract_search_result(v: &JsonValue) -> (r: Result<SearchResult, String>)
    ensures
        match r {
            Result::Ok(sr) => spec_extract_search(*v) == Result::<
                SearchResultView,
                Seq<char>,
            >::Ok(sr@),
            Result::Err(e) => spec_extract_search(*v) == Result::<
                SearchResultView,
                Seq<char>,
            >::Err(e@),
        },
{
    let code = v.get_u64_or("code", 500);
    if code != 200 {
        let mut msg = ("API return error: code ").to_owned();
        msg.append(crate::strutil::u64_to_string(code).as_str());
        return Result::Err(msg);
    }
    let result = match v.get("result") {
        Option::Some(x) => x,
        Option::None => {
            return Result::Err(("No result data").to_owned());
        },
    };
    let songs_value = match result.get_array("songs") {
        Option::Some(a) => a,
        Option::None => {
            return Result::Err(("No songs array").to_owned());
        },
    };
    let total_64 = result.get_u64_or("songCount", 0);
    let total: u32 = #[verifier::truncate] (total_64 as u32);
    let songs = collect_songs(songs_value);
    Result::Ok(SearchResult { songs, total })
}

/// Builds the song list out of the entries of a search answer.
fn collect_songs(songs_value: &Vec<JsonValue>) -> (songs: Vec<SongInfo>)
    ensures
        songs@.map_values(|s: SongInfo| s@) == spec_songs_of(songs_value@),
{
    let mut songs: Vec<SongInfo> = Vec::new();
    let n = songs_value.len();
    proof {
        assert(songs_value@.skip(0) =~= songs_value@);
        assert(songs@.map_values(|s: SongInfo| s@) =~= Seq::<SongInfoView>::empty());
    }
    for i in 0..n
        invariant
            n == songs_value@.len(),
            spec_songs_of(songs_value@) == songs@.map_values(|s: SongInfo| s@) + spec_songs_of(
                songs_value@.skip(i as int),
            ),
    {
        proof {
            assert(songs_value@.skip(i as int)[0] == songs_value@[i as int]);
            assert(songs_value@.skip(i as int).drop_first() =~= songs_value@.skip(i + 1));
        }
        let ghost prev = songs@;
        match build_song(&songs_value[i]) {
            Option::Some(s) => {
                let ghost sv = s@;
                songs.push(s);
                proof {
                    assert(songs@.map_values(|s: SongInfo| s@) =~= prev.map_values(
                        |s: SongInfo| s@,
                    ).push(sv));
                }
            },
            Option::None => {},
        }
        proof {
            assert(spec_songs_of(songs_value@) =~= songs@.map_values(|s: SongInfo| s@)
                + spec_songs_of(songs_value@.skip(i + 1)));
        }
    }
    proof {
        assert(spec_songs_of(songs_value@.skip(n as int)) =~= Seq::<SongInfoView>::empty());
        assert(spec_songs_of(songs_value@) =~= songs@.map_values(|s: SongInfo| s@));
    }
    songs
}

/// What [`extract_lyric_info`] answers on a parsed lyric-search response:
/// the id and access key of the first candidate, or the first applicable
/// error — a non-200 status (reported with the service's own message, or
/// "unknown error"), a missing candidate list, an empty one, a candidate
/// without an id, one without an access key, in that order.
pub open spec fn spec_extract_lyric_info(v: JsonValue) -> Result<LyricInfoView, Seq<char>> {
    let status = spec_get_u64_or(v, "status"@, 0);
    if status != 200 {
        let errmsg = match spec_get_str(v, "errmsg"@) {
            Option::Some(m) => m,
            Option::None => "unknown error"@,
        };
        Result::Err("API return error: "@ + errmsg)
    } else {
        match spec_get_arr(v, "candidates"@) {
            Option::None => Result::Err("No candidates found"@),
            Option::Some(candidates) => if candidates.len() == 0 {
                Result::Err("No lyric candidates available"@)
            } else {
                let candidate = candidates[0];
                match spec_get_str(candidate, "id"@) {
                    Option::None => Result::Err("No lyric id"@),
                    Option::Some(id) => match spec_get_str(candidate, "accesskey"@) {
                        Option::None => Result::Err("No accesskey"@),
                        Option::Some(accesskey) => Result::Ok(
                            LyricInfoView { id: id, accesskey: accesskey },
                        ),
                    },
                }
            },
        }
    }
}

/// Extracts where the lyric of a song can be fetched from, out of a parsed
/// lyric-search response.
pub fn extract_lyric_info(v: &JsonValue) -> (r: Result<LyricInfo, String>)
    ensures
        match r {
            Result::Ok(info) => spec_extract_lyric_info(*v) == Result::<
                LyricInfoView,
                Seq<char>,
            >::Ok(info@),
            Result::Err(e) => spec_extract_lyric_info(*v) == Result::<
                LyricInfoView,
                Seq<char>,
            >::Err(e@),
        },
{
    let status = v.get_u64_or("status", 0);
    if status != 200 {
        let mut msg = ("API return error: ").to_owned();
        match v.get_str("errmsg") {
            Option::Some(m) => msg.append(m.as_str()),
            Option::None => msg.append("unknown error"),
        }
        return Result::Err(msg);
    }
    let candidates = match v.get_array("candidates") {
        Option::Some(a) => a,
        Option::None => {
            return Result::Err(("No candidates found").to_owned());
        },
    };
    if candidates.len() == 0 {
        return Result::Err(("No lyric candidates available").to_owned());
    }
    let candidate = &candidates[0];
    let id = match candidate.get_str("id") {
        Option::Some(s) => s.clone(),
        Option::None => {
            return Result::Err(("No lyric id").to_owned());
        },
    };
    let accesskey = match candidate.get_str("accesskey") {
        Option::Some(s) => s.clone(),
        Option::None => {
            return Result::Err(("No accesskey").to_owned());
        },
    };
    Result::Ok(LyricInfo { id, accesskey })
}

/// What [`extract_lyric`] answers on a parsed lyric-content response: the
/// content with its format (falling back to "lrc"), content type (falling
/// back to 1) and charset (falling back to "utf8"); or an error — a non-200
/// status reported with the service's message or "unknown error", or a
/// missing content field.
pub open spec fn spec_extract_lyric(v: JsonValue) -> Result<LyricView, Seq<char>> {
    let status = spec_get_u64_or(v, "status"@, 500);
    if status != 200 {
        let error = match spec_get_str(v, "error"@) {
            Option::Some(m) => m,
            Option::None => "unknown error"@,
        };
        Result::Err("API return error: "@ + error)
    } else {
        match spec_get_str(v, "content"@) {
            Option::None => Result::Err("No lyric content"@),
            Option::Some(content) => Result::Ok(
                LyricView {
                    content: content,
                    fmt: match spec_get_str(v, "fmt"@) {
                        Option::Some(f) => f,
                        Option::None => "lrc"@,
                    },
                    contenttype: (spec_get_u64_or(v, "contenttype"@, 1) as u32),
                    charset: match spec_get_str(v, "charset"@) {
                        Option::Some(c) => c,
                        Option::None => "utf8"@,
                    },
                },
            ),
        }
    }
}

/// Extracts a lyric from a parsed lyric-content response.
pub fn extract_lyric(v: &JsonValue) -> (r: Result<Lyric, String>)
    ensures
        match r {
            Result::Ok(l) => spec_extract_lyric(*v) == Result::<LyricView, Seq<char>>::Ok(l@),
            Result::Err(e) => spec_extract_lyric(*v) == Result::<LyricView, Seq<char>>::Err(e@),
        },
{
    let status = v.get_u64_or("status", 500);
    if status != 200 {
        let mut msg = ("API return error: ").to_owned();
        match v.get_str("error") {
            Option::Some(m) => msg.append(m.as_str()),
            Option::None => msg.append("unknown error"),
        }
        return Result::Err(msg);
    }
    let content = match v.get_str("content") {
        Option::Some(s) => s.clone(),
        Option::None => {
            return Result::Err(("No lyric content").to_owned());
        },
    };
    let fmt = match v.get_str("fmt") {
        Option::Some(s) => s.clone(),
        Option::None => ("lrc").to_owned(),
    };
    let contenttype_64 = v.get_u64_or("contenttype", 1);
    let contenttype: u32 = #[verifier::truncate] (contenttype_64 as u32);
    let charset = match v.get_str("charset") {
        Option::Some(s) => s.clone(),
        Option::None => ("utf8").to_owned(),
    };
    Result::Ok(Lyric { content, fmt, contenttype, charset })
}

/// What [`extract_lyric_decoded`] answers on a parsed lyric-content
/// response: the decoded content field, or an error when it is missing.
pub open spec fn spec_extract_lyric_decoded(v: JsonValue) -> Result<Seq<char>, Seq<char>> {
    match spec_get_str(v, "decodeContent"@) {
        Option::None => Result::Err("No decoded lyric content"@),
        Option::Some(c) => Result::Ok(c),
    }
}

/// Extracts the decoded lyric text from a parsed lyric-content response.
pub fn extract_lyric_decoded(v: &JsonValue) -> (r: Result<String, String>)
    ensures
        match r {
            Result::Ok(s) => spec_extract_lyric_decoded(*v) == Result::<
                Seq<char>,
                Seq<char>,
            >::Ok(s@),
            Result::Err(e) => spec_extract_lyric_decoded(*v) == Result::<
                Seq<char>,
                Seq<char>,
            >::Err(e@),
        },
{
    match v.get_str("decodeContent") {
        Option::Some(s) => Result::Ok(s.clone()),
        Option::None => Result::Err(("No decoded lyric content").to_owned()),
    }
}

/// What [`extract_cover_url`] answers on a parsed cover-search response:
/// the image URL of the first listed song with its `{size}` placeholder
/// resolved to 400, an empty URL kept empty, or the first applicable error —
/// a non-zero error code, a missing data member, a missing song list, an
/// empty one, in that order.
pub open spec fn spec_extract_cover(v: JsonValue) -> Result<Seq<char>, Seq<char>> {
    let error_code = spec_get_u64_or(v, "error_code"@, 1);
    if error_code != 0 {
        Result::Err("Cover image API error"@)
    } else {
        match spec_get(v, "data"@) {
            Option::None => Result::Err("No data in cover image response"@),
            Option::Some(data) => match spec_get_arr(data, "lists"@) {
                Option::None => Result::Err("No song lists in cover image response"@),
                Option::Some(lists) => if lists.len() == 0 {
                    Result::Err("No songs found for cover image"@)
                } else {
                    let pic = match spec_get_str(lists[0], "Image"@) {
                        Option::Some(p) => p,
                        Option::None => Seq::empty(),
                    };
                    if pic.len() == 0 {
                        Result::Ok(Seq::empty())
                    } else {
                        Result::Ok(crate::strutil::spec_replace(pic, "{size}"@, "400"@))
                    }
                },
            },
        }
    }
}

/// Extracts the cover image URL from a parsed cover-search response.
pub fn extract_cover_url(v: &JsonValue) -> (r: Result<String, String>)
    ensures
        match r {
            Result::Ok(s) => spec_extract_cover(*v) == Result::<Seq<char>, Seq<char>>::Ok(s@),
            Result::Err(e) => spec_extract_cover(*v) == Result::<Seq<char>, Seq<char>>::Err(e@),
        },
{
    let error_code = v.get_u64_or("error_code", 1);
    if error_code != 0 {
        return Result::Err(("Cover image API error").to_owned());
    }
    let data = match v.get("data") {
        Option::Some(d) => d,
        Option::None => {
            return Result::Err(("No data in cover image response").to_owned());
        },
    };
    let lists = match data.get_array("lists") {
        Option::Some(a) => a,
        Option::None => {
            return Result::Err(("No song lists in cover image response").to_owned());
        },
    };
    if lists.len() == 0 {
        return Result::Err(("No songs found for cover image").to_owned());
    }
    let pic = match lists[0].get_str("Image") {
        Option::Some(p) => p.clone(),
        Option::None => String::new(),
    };
    if pic.as_str().is_empty() {
        proof {
            assert(pic@ =~= Seq::<char>::empty());
        }
        return Result::Ok(pic);
    }
    Result::Ok(crate::strutil::replace_all(pic.as_str(), "{size}", "400"))
}

} // verus!
