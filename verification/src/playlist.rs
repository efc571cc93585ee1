//! User-defined playlists, as they are persisted to and read from the
//! application's data directory.
//!
//! Reading and writing the playlist file, and the serialized JSON shape,
//! stay with the caller; the library holds the types and what well-formed
//! lists look like.

use vstd::prelude::*;

verus! {

/// One song in a playlist, as the UI knows it.
#[derive(Debug, Clone)]
pub struct SongInfo {
    pub id: String,
    pub name: String,
    pub artists: Vec<String>,
    pub album: String,
    /// Track length in milliseconds.
    pub duration: u64,
    pub pic_url: String,
    pub file_hash: String,
}

/// Mathematical image of [`SongInfo`].
pub ghost struct SongInfoView {
    pub id: Seq<char>,
    pub name: Seq<char>,
    pub artists: Seq<Seq<char>>,
    pub album: Seq<char>,
    pub duration: u64,
    pub pic_url: Seq<char>,
    pub file_hash: Seq<char>,
}

impl View for SongInfo {
    type V = SongInfoView;

    open spec fn view(&self) -> SongInfoView {
        SongInfoView {
            id: self.id@,
            name: self.name@,
            artists: self.artists@.map_values(|s: String| s@),
            album: self.album@,
            duration: self.duration,
            pic_url: self.pic_url@,
            file_hash: self.file_hash@,
        }
    }
}

/// One entry of a playlist: a local file, or an online song.
#[derive(Debug, Clone)]
pub enum PlaylistItem {
    Local { file_name: String },
    Online { song: SongInfo },
}

/// Mathematical image of [`PlaylistItem`].
pub ghost enum PlaylistItemView {
    Local { file_name: Seq<char> },
    Online { song: SongInfoView },
}

impl View for PlaylistItem {
    type V = PlaylistItemView;

    open spec fn view(&self) -> PlaylistItemView {
        match self {
            PlaylistItem::Local { file_name } => PlaylistItemView::Local {
                file_name: file_name@,
            },
            PlaylistItem::Online { song } => PlaylistItemView::Online { song: song@ },
        }
    }
}

/// A named, ordered list of songs.
#[derive(Debug, Clone)]
pub struct Playlist {
    pub id: String,
    pub name: String,
    pub items: Vec<PlaylistItem>,
    /// Seconds since the epoch at creation.
    pub created_at: u64,
}

/// Mathematical image of [`Playlist`].
pub ghost struct PlaylistView {
    pub id: Seq<char>,
    pub name: Seq<char>,
    pub items: Seq<PlaylistItemView>,
    pub created_at: u64,
}

impl View for Playlist {
    type V = PlaylistView;

    open spec fn view(&self) -> PlaylistView {
        PlaylistView {
            id: self.id@,
            name: self.name@,
            items: self.items@.map_values(|i: PlaylistItem| i@),
            created_at: self.created_at,
        }
    }
}

} // verus!
