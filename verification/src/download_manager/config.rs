//! Where the tools are and how many jobs may run at once.

use crate::events::opt_view;
use crate::text::strings;
use vstd::prelude::*;
use vstd::string::*;

verus! {

/// How many jobs run at once unless configured otherwise.
pub const DEFAULT_MAX_CONCURRENT: usize = 2;

/// The settings of download execution.
#[derive(Debug, Clone)]
pub struct DownloadConfig {
    pub yt_dlp_path: String,
    pub ffmpeg_path: Option<String>,
    pub max_concurrent: usize,
    pub default_output_template: String,
}

impl DownloadConfig {
    /// The default settings for the given tool locations: two jobs at once
    /// and the usual output template.
    pub fn with_binaries(yt_dlp_path: String, ffmpeg_path: Option<String>) -> (c: Self)
        ensures
            c.yt_dlp_path == yt_dlp_path,
            c.ffmpeg_path == ffmpeg_path,
            c.max_concurrent == DEFAULT_MAX_CONCURRENT,
            c.default_output_template@ == "%(title)s [%(id)s].%(ext)s"@,
    {
        DownloadConfig {
            yt_dlp_path,
            ffmpeg_path,
            max_concurrent: DEFAULT_MAX_CONCURRENT,
            default_output_template: "%(title)s [%(id)s].%(ext)s".to_owned(),
        }
    }
}

/// What is known of a medium once its metadata has been fetched.
#[derive(Debug, Clone)]
pub struct FetchedMetadata {
    pub title: Option<String>,
    pub uploader: Option<String>,
    pub duration_seconds: Option<u64>,
    pub thumbnail_url: Option<String>,
}

pub struct FetchedMetadataView {
    pub title: Option<Seq<char>>,
    pub uploader: Option<Seq<char>>,
    pub duration_seconds: Option<u64>,
    pub thumbnail_url: Option<Seq<char>>,
}

impl View for FetchedMetadata {
    type V = FetchedMetadataView;

    open spec fn view(&self) -> FetchedMetadataView {
        FetchedMetadataView {
            title: opt_view(self.title),
            uploader: opt_view(self.uploader),
            duration_seconds: self.duration_seconds,
            thumbnail_url: opt_view(self.thumbnail_url),
        }
    }
}

/// A place where a tool may be, and whether something is there.
#[derive(Debug, Clone)]
pub struct Candidate {
    pub path: String,
    pub exists: bool,
}

/// The path of the first candidate from position `from` on at which
/// something exists.
pub open spec fn first_existing(candidates: Seq<Candidate>, from: int) -> Option<Seq<char>>
    decreases candidates.len() - from,
{
    if from < 0 || from >= candidates.len() {
        None
    } else if candidates[from].exists {
        Some(candidates[from].path@)
    } else {
        first_existing(candidates, from + 1)
    }
}

/// The usual places of the extraction tool, in search order. A place under
/// the home directory is left out where the home directory is not known.
pub open spec fn ytdlp_places(home: Option<Seq<char>>) -> Seq<Seq<char>> {
    seq!["/opt/homebrew/bin/yt-dlp"@, "/usr/local/bin/yt-dlp"@] + (match home {
        Some(h) => seq![h + "/.local/bin/yt-dlp"@],
        None => Seq::empty(),
    }) + seq!["/usr/bin/yt-dlp"@] + (match home {
        Some(h) => seq![h + "/.local/pipx/venvs/yt-dlp/bin/yt-dlp"@],
        None => Seq::empty(),
    }) + seq!["/opt/local/bin/yt-dlp"@]
}

/// The usual places of ffmpeg, in search order.
pub open spec fn ffmpeg_places() -> Seq<Seq<char>> {
    seq![
        "/opt/homebrew/bin/ffmpeg"@,
        "/usr/local/bin/ffmpeg"@,
        "/usr/bin/ffmpeg"@,
        "/opt/local/bin/ffmpeg"@,
    ]
}

fn push_place(places: &mut Vec<String>, place: String)
    ensures
        strings(final(places)@) == strings(old(places)@).push(place@),
{
    let ghost before = places@;
    places.push(place);
    proof {
        assert(places@ =~= before.push(place));
        assert(strings(before.push(place)) =~= strings(before).push(place@));
    }
}

/// The usual places of the extraction tool, in search order.
pub fn ytdlp_common_paths(home: Option<&str>) -> (places: Vec<String>)
    ensures
        strings(places@) == ytdlp_places(
            match home {
                Some(h) => Some(h@),
                None => None,
            },
        ),
{
    let mut places: Vec<String> = Vec::new();
    proof {
        assert(strings(places@) =~= Seq::<Seq<char>>::empty());
    }
    push_place(&mut places, "/opt/homebrew/bin/yt-dlp".to_owned());
    push_place(&mut places, "/usr/local/bin/yt-dlp".to_owned());
    match home {
        Some(h) => {
            push_place(&mut places, h.to_owned().concat("/.local/bin/yt-dlp"));
        },
        None => {},
    }
    push_place(&mut places, "/usr/bin/yt-dlp".to_owned());
    match home {
        Some(h) => {
            push_place(&mut places, h.to_owned().concat("/.local/pipx/venvs/yt-dlp/bin/yt-dlp"));
        },
        None => {},
    }
    push_place(&mut places, "/opt/local/bin/yt-dlp".to_owned());
    proof {
        assert(strings(places@) =~= ytdlp_places(
            match home {
                Some(h) => Some(h@),
                None => None,
            },
        ));
    }
    places
}

/// The usual places of ffmpeg, in search order.
pub fn ffmpeg_common_paths() -> (places: Vec<String>)
    ensures
        strings(places@) == ffmpeg_places(),
{
    let mut places: Vec<String> = Vec::new();
    proof {
        assert(strings(places@) =~= Seq::<Seq<char>>::empty());
    }
    push_place(&mut places, "/opt/homebrew/bin/ffmpeg".to_owned());
    push_place(&mut places, "/usr/local/bin/ffmpeg".to_owned());
    push_place(&mut places, "/usr/bin/ffmpeg".to_owned());
    push_place(&mut places, "/opt/local/bin/ffmpeg".to_owned());
    proof {
        assert(strings(places@) =~= ffmpeg_places());
    }
    places
}

/// The first of the candidates at which something exists. The candidates
/// are given in search order: the bundled tool beside the executable, the
/// bundle's resources, the usual places, what a `PATH` lookup found.
pub fn find_ffmpeg_binary(candidates: &Vec<Candidate>) -> (r: Option<String>)
    ensures
        opt_view(r) == first_existing(candidates@, 0),
{
    let mut i: usize = 0;
    while i < candidates.len()
        invariant
            i <= candidates.len(),
            first_existing(candidates@, 0) == first_existing(candidates@, i as int),
        decreases candidates.len() - i,
    {
        if candidates[i].exists {
            return Some(candidates[i].path.clone());
        }
        i = i + 1;
    }
    None
}

/// The first of the candidates at which something exists, or the bare name
/// of the tool, to be looked up on `PATH`, where there is none.
pub fn find_ytdlp_binary(candidates: &Vec<Candidate>) -> (r: String)
    ensures
        r@ == match first_existing(candidates@, 0) {
            Some(p) => p,
            None => "yt-dlp"@,
        },
{
    match find_ffmpeg_binary(candidates) {
        Some(p) => p,
        None => "yt-dlp".to_owned(),
    }
}

} // verus!
