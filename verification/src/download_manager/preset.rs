//! Presets: named bundles of arguments for the extraction tool.

use crate::text::{clone_strings, same_text, strings};
use vstd::prelude::*;
use vstd::string::*;

verus! {

/// A named bundle of arguments that selects quality, format and container.
#[derive(Debug, Clone)]
pub struct Preset {
    pub id: String,
    pub name: String,
    pub yt_dlp_args: Vec<String>,
}

pub struct PresetView {
    pub id: Seq<char>,
    pub name: Seq<char>,
    pub yt_dlp_args: Seq<Seq<char>>,
}

impl View for Preset {
    type V = PresetView;

    open spec fn view(&self) -> PresetView {
        PresetView { id: self.id@, name: self.name@, yt_dlp_args: strings(self.yt_dlp_args@) }
    }
}

/// The views of a list of presets, in order.
pub open spec fn preset_views(v: Seq<Preset>) -> Seq<PresetView> {
    v.map_values(|p: Preset| p@)
}

/// The view of an optional preset.
pub open spec fn opt_preset_view(p: Option<Preset>) -> Option<PresetView> {
    match p {
        Some(x) => Some(x@),
        None => None,
    }
}

/// What a list of literals spells, literal by literal.
pub open spec fn literals(v: Seq<&'static str>) -> Seq<Seq<char>> {
    v.map_values(|s: &'static str| s@)
}

/// The presets that are built in, in the order in which they are offered.
/// The first is the one used where a preset is not known.
pub open spec fn builtin() -> Seq<PresetView> {
    seq![
        PresetView {
            id: "recommended_best"@,
            name: "Recommended (Best)"@,
            yt_dlp_args: seq!["-f"@, "bv*+ba/b"@, "--merge-output-format"@, "mp4"@],
        },
        PresetView {
            id: "mp4_1080p"@,
            name: "1080p MP4"@,
            yt_dlp_args: seq![
                "-f"@,
                "bv*[height<=1080]+ba/b[height<=1080]"@,
                "--merge-output-format"@,
                "mp4"@,
            ],
        },
        PresetView {
            id: "mp4_best"@,
            name: "Best MP4"@,
            yt_dlp_args: seq![
                "-f"@,
                "bv*[ext=mp4]+ba[ext=m4a]/b[ext=mp4]"@,
                "--merge-output-format"@,
                "mp4"@,
            ],
        },
        PresetView {
            id: "audio_m4a"@,
            name: "Audio M4A"@,
            yt_dlp_args: seq!["-f"@, "ba[ext=m4a]/ba"@, "-x"@, "--audio-format"@, "m4a"@],
        },
        PresetView {
            id: "audio_mp3_320"@,
            name: "Audio MP3 320"@,
            yt_dlp_args: seq![
                "-f"@,
                "ba"@,
                "-x"@,
                "--audio-format"@,
                "mp3"@,
                "--audio-quality"@,
                "320K"@,
            ],
        },
    ]
}

/// The first preset from position `from` on whose identifier is `id`.
pub open spec fn first_with_id(presets: Seq<PresetView>, id: Seq<char>, from: int) -> Option<
    PresetView,
>
    decreases presets.len() - from,
{
    if from < 0 || from >= presets.len() {
        None
    } else if presets[from].id == id {
        Some(presets[from])
    } else {
        first_with_id(presets, id, from + 1)
    }
}

/// The built-in preset with the given identifier, or the first built-in
/// preset where there is none.
pub open spec fn builtin_or_default(id: Seq<char>) -> PresetView {
    match first_with_id(builtin(), id, 0) {
        Some(p) => p,
        None => builtin()[0],
    }
}

/// Owned copies of a list of literals.
pub fn owned_strings(items: &Vec<&'static str>) -> (r: Vec<String>)
    ensures
        strings(r@) == literals(items@),
{
    let mut r: Vec<String> = Vec::new();
    let mut i: usize = 0;
    while i < items.len()
        invariant
            i <= items.len(),
            strings(r@) == literals(items@.subrange(0, i as int)),
        decreases items.len() - i,
    {
        let ghost before = r@;
        let s = items[i].to_owned();
        r.push(s);
        proof {
            assert(items@.subrange(0, i + 1) =~= items@.subrange(0, i as int).push(
                items@[i as int],
            ));
            assert(r@ =~= before.push(s));
            assert(strings(before.push(s)) =~= strings(before).push(s@));
            assert(literals(items@.subrange(0, i as int).push(items@[i as int])) =~= literals(
                items@.subrange(0, i as int),
            ).push(items@[i as int]@));
        }
        i = i + 1;
    }
    proof {
        assert(items@.subrange(0, items@.len() as int) =~= items@);
    }
    r
}

fn preset(id: &'static str, name: &'static str, args: Vec<&'static str>) -> (p: Preset)
    ensures
        p@ == (PresetView { id: id@, name: name@, yt_dlp_args: literals(args@) }),
{
    Preset { id: id.to_owned(), name: name.to_owned(), yt_dlp_args: owned_strings(&args) }
}

impl Preset {
    /// The built-in presets, in the order in which they are offered.
    pub fn builtin_presets() -> (v: Vec<Preset>)
        ensures
            preset_views(v@) == builtin(),
    {
        let a0: Vec<&'static str> = vec!["-f", "bv*+ba/b", "--merge-output-format", "mp4"];
        let a1: Vec<&'static str> = vec![
            "-f",
            "bv*[height<=1080]+ba/b[height<=1080]",
            "--merge-output-format",
            "mp4",
        ];
        let a2: Vec<&'static str> = vec![
            "-f",
            "bv*[ext=mp4]+ba[ext=m4a]/b[ext=mp4]",
            "--merge-output-format",
            "mp4",
        ];
        let a3: Vec<&'static str> = vec!["-f", "ba[ext=m4a]/ba", "-x", "--audio-format", "m4a"];
        let a4: Vec<&'static str> = vec![
            "-f",
            "ba",
            "-x",
            "--audio-format",
            "mp3",
            "--audio-quality",
            "320K",
        ];
        proof {
            assert(literals(a0@) =~= builtin()[0].yt_dlp_args);
            assert(literals(a1@) =~= builtin()[1].yt_dlp_args);
            assert(literals(a2@) =~= builtin()[2].yt_dlp_args);
            assert(literals(a3@) =~= builtin()[3].yt_dlp_args);
            assert(literals(a4@) =~= builtin()[4].yt_dlp_args);
        }
        let mut v: Vec<Preset> = Vec::new();
        v.push(preset("recommended_best", "Recommended (Best)", a0));
        v.push(preset("mp4_1080p", "1080p MP4", a1));
        v.push(preset("mp4_best", "Best MP4", a2));
        v.push(preset("audio_m4a", "Audio M4A", a3));
        v.push(preset("audio_mp3_320", "Audio MP3 320", a4));
        proof {
            assert(preset_views(v@) =~= builtin());
        }
        v
    }

    /// A copy of this preset.
    pub fn copy(&self) -> (p: Preset)
        ensures
            p@ == self@,
    {
        Preset {
            id: self.id.clone(),
            name: self.name.clone(),
            yt_dlp_args: clone_strings(&self.yt_dlp_args),
        }
    }

    /// The built-in preset with the given identifier.
    pub fn get_by_id(id: &str) -> (r: Option<Preset>)
        ensures
            opt_preset_view(r) == first_with_id(builtin(), id@, 0),
    {
        let presets = Self::builtin_presets();
        let mut i: usize = 0;
        while i < presets.len()
            invariant
                i <= presets.len(),
                preset_views(presets@) == builtin(),
                first_with_id(builtin(), id@, 0) == first_with_id(builtin(), id@, i as int),
            decreases presets.len() - i,
        {
            proof {
                assert(preset_views(presets@)[i as int] == presets@[i as int]@);
            }
            if same_text(presets[i].id.as_str(), id) {
                return Some(presets[i].copy());
            }
            i = i + 1;
        }
        proof {
            assert(preset_views(presets@).len() == presets.len());
        }
        None
    }

    /// The built-in preset with the given identifier, or the first built-in
    /// preset where there is none.
    pub fn get_or_default(id: &str) -> (p: Preset)
        ensures
            p@ == builtin_or_default(id@),
    {
        match Self::get_by_id(id) {
            Some(p) => p,
            None => {
                let presets = Self::builtin_presets();
                proof {
                    assert(preset_views(presets@)[0] == presets@[0]@);
                }
                presets[0].copy()
            },
        }
    }
}

} // verus!
