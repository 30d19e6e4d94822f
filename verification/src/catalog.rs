//! Which files count as music, and how the tags of a track are listed.

use crate::text::{lowercase_of, to_lowercase};
use std::path::PathBuf;
use vstd::prelude::*;
use vstd::string::*;

verus! {

/// What a directory scan tells about one entry.
pub struct FileEntry {
    pub path: PathBuf,
    /// Whether the entry is a regular file.
    pub is_file: bool,
    /// The extension of the file name, without the dot, where it has one
    /// that is valid Unicode.
    pub extension: Option<String>,
}

/// Title, artist and album of a tag, each where the tag has it.
pub struct TagFields {
    pub title: Option<String>,
    pub artist: Option<String>,
    pub album: Option<String>,
}

/// Whether `lower`, an extension in lowercase, is one of a music file.
pub open spec fn is_music_extension_text(lower: Seq<char>) -> bool {
    ||| lower == "mp3"@
    ||| lower == "flac"@
    ||| lower == "wav"@
    ||| lower == "aac"@
    ||| lower == "ogg"@
    ||| lower == "m4a"@
    ||| lower == "wma"@
    ||| lower == "alac"@
}

/// Whether a scan entry is a music file: a regular file whose extension,
/// whatever its case, is one of a music file.
pub open spec fn is_music_entry(entry: FileEntry) -> bool {
    entry.is_file && match entry.extension {
        Some(extension) => is_music_extension_text(lowercase_of(extension@)),
        None => false,
    }
}

/// The paths of the music files among `entries`, in order.
pub open spec fn music_among(entries: Seq<FileEntry>) -> Seq<PathBuf> {
    entries.filter(|entry: FileEntry| is_music_entry(entry)).map_values(
        |entry: FileEntry| entry.path,
    )
}

/// A tag's fields as labelled lines: title, artist and album in this order,
/// each only where the tag has it.
pub open spec fn tag_lines(fields: TagFields) -> Seq<(Seq<char>, Seq<char>)> {
    let title = match fields.title {
        Some(title) => seq![("Title"@, title@)],
        None => seq![],
    };
    let artist = match fields.artist {
        Some(artist) => seq![("Artist"@, artist@)],
        None => seq![],
    };
    let album = match fields.album {
        Some(album) => seq![("Album"@, album@)],
        None => seq![],
    };
    title + artist + album
}

/// One labelled line: label, colon, space, value.
pub open spec fn tag_line_text(line: (Seq<char>, Seq<char>)) -> Seq<char> {
    line.0 + seq![':', ' '] + line.1
}

/// Labelled lines as one text, a line break between each two.
pub open spec fn tags_text(lines: Seq<(Seq<char>, Seq<char>)>) -> Seq<char>
    decreases lines.len(),
{
    if lines.len() == 0 {
        Seq::empty()
    } else if lines.len() == 1 {
        tag_line_text(lines[0])
    } else {
        tags_text(lines.drop_last()) + seq!['\n'] + tag_line_text(lines.last())
    }
}

/// What is shown for the tags of a track: the labelled lines where the tags
/// were read, a notice where they were not.
pub open spec fn tags_caption(lines: Option<Seq<(Seq<char>, Seq<char>)>>) -> Seq<char> {
    match lines {
        Some(lines) => tags_text(lines),
        None => "Unable to read tags"@,
    }
}

/// The text of each label and value of `lines`.
pub open spec fn line_texts(lines: Seq<(String, String)>) -> Seq<(Seq<char>, Seq<char>)> {
    lines.map_values(|line: (String, String)| (line.0@, line.1@))
}

fn text_is(text: &String, literal: &str) -> (same: bool)
    ensures
        same == (text@ == literal@),
{
    let other: String = String::from_str(literal);
    *text == other
}

/// Whether `extension` is the extension of a music file, whatever its case.
pub fn is_music_extension(extension: &str) -> (music: bool)
    ensures
        music == is_music_extension_text(lowercase_of(extension@)),
{
    let lower: String = to_lowercase(extension);
    text_is(&lower, "mp3") || text_is(&lower, "flac") || text_is(&lower, "wav") || text_is(
        &lower,
        "aac",
    ) || text_is(&lower, "ogg") || text_is(&lower, "m4a") || text_is(&lower, "wma") || text_is(
        &lower,
        "alac",
    )
}

/// The paths of the music files among the entries of a directory scan, in
/// the order of the scan.
pub fn get_music(entries: Vec<FileEntry>) -> (music: Vec<PathBuf>)
    ensures
        music@ == music_among(entries@),
{
    let ghost pred = |entry: FileEntry| is_music_entry(entry);
    let ghost path_of = |entry: FileEntry| entry.path;
    let mut music: Vec<PathBuf> = Vec::new();
    for entry in it: entries
        invariant
            pred == |entry: FileEntry| is_music_entry(entry),
            path_of == |entry: FileEntry| entry.path,
            it.seq() == entries@,
            music@ == entries@.take(it.index()).filter(pred).map_values(path_of),
    {
        let keep: bool = entry.is_file && match &entry.extension {
            Some(extension) => is_music_extension(extension.as_str()),
            None => false,
        };
        if keep {
            music.push(entry.path);
        }
        proof {
            reveal(Seq::filter);
            assert(entries@.take(it.index() + 1).drop_last() =~= entries@.take(it.index()));
        }
    }
    assert(entries@.take(entries@.len() as int) =~= entries@);
    music
}

/// The labelled lines of a track's tags: those of its primary tag, and those
/// of its first tag where it has no primary one.
pub fn get_music_tags(primary: Option<TagFields>, first: Option<TagFields>) -> (tags: Vec<
    (String, String),
>)
    requires
        primary is Some || first is Some,
    ensures
        line_texts(tags@) == tag_lines(
            if primary is Some {
                primary->Some_0
            } else {
                first->Some_0
            },
        ),
{
    let fields: TagFields = match primary {
        Some(fields) => fields,
        None => first.unwrap(),
    };
    let mut tags: Vec<(String, String)> = Vec::new();
    if let Some(title) = fields.title {
        tags.push((String::from_str("Title"), title));
    }
    if let Some(artist) = fields.artist {
        tags.push((String::from_str("Artist"), artist));
    }
    if let Some(album) = fields.album {
        tags.push((String::from_str("Album"), album));
    }
    tags
}

/// Renders the tags of a track for display: one line per tag where they were
/// read, a notice where they were not.
pub fn describe_tags(tags: Option<&Vec<(String, String)>>) -> (text: String)
    ensures
        text@ == tags_caption(
            match tags {
                Some(lines) => Some(line_texts(lines@)),
                None => None,
            },
        ),
{
    match tags {
        Some(lines) => {
            let mut text: String = String::new();
            let n: usize = lines.len();
            let mut i: usize = 0;
            while i < n
                invariant
                    i <= n,
                    n == lines@.len(),
                    text@ == tags_text(line_texts(lines@).take(i as int)),
                decreases n - i,
            {
                if i > 0 {
                    text.append("\n");
                }
                text.append(lines[i].0.as_str());
                text.append(": ");
                text.append(lines[i].1.as_str());
                proof {
                    reveal_strlit("\n");
                    reveal_strlit(": ");
                    assert(line_texts(lines@).take(i + 1).drop_last() =~= line_texts(lines@).take(
                        i as int,
                    ));
                }
                i = i + 1;
            }
            assert(line_texts(lines@).take(n as int) =~= line_texts(lines@));
            text
        },
        None => String::from_str("Unable to read tags"),
    }
}

} // verus!
