//! Track metadata assembled from a recognition result.
//!
//! Every field of a result is optional; a missing field gives `None` and never
//! fails the recognition.
use vstd::prelude::*;

verus! {

/// How long a recognition capture records, in milliseconds.
pub const RECOGNITION_CAPTURE_MILLIS: u64 = 5000;

/// Artwork URLs of a recognised track.
#[derive(Debug, Clone)]
pub struct Art {
    pub background: Option<String>,
    pub coverart: Option<String>,
    pub coverarthq: Option<String>,
}

/// What is known of a recognised track.
#[derive(Debug, Clone)]
pub struct Track {
    pub art: Art,
    pub artist: Option<String>,
    pub track: Option<String>,
    pub album: Option<String>,
}

/// One titled line of a section's metadata.
#[derive(Debug, Clone)]
pub struct MetadataEntry {
    pub title: Option<String>,
    pub text: Option<String>,
}

/// The metadata of one section of a result.
#[derive(Debug, Clone)]
pub enum SectionMetadata {
    /// The section has no metadata.
    Missing,
    /// The section has metadata, but not as a list.
    NotList,
    /// The section's metadata lines, in order.
    Entries(Vec<MetadataEntry>),
}

/// The fields of a recognition result that make up a `Track`.
#[derive(Debug, Clone)]
pub struct TrackFields {
    pub title: Option<String>,
    pub subtitle: Option<String>,
    pub background: Option<String>,
    pub coverart: Option<String>,
    pub coverarthq: Option<String>,
    /// The result's sections, when it has a list of them.
    pub sections: Option<Vec<SectionMetadata>>,
}

/// The title of the metadata line that names the album.
pub open spec fn album_title() -> Seq<char> {
    "Album"@
}

/// The entry is titled exactly `"Album"`.
pub open spec fn is_album_entry(e: MetadataEntry) -> bool {
    e.title is Some && e.title->Some_0@ == album_title()
}

/// Section `i` is the first one that has metadata.
pub open spec fn is_first_present(sections: Seq<SectionMetadata>, i: int) -> bool {
    &&& 0 <= i < sections.len()
    &&& !(sections[i] is Missing)
    &&& forall|k: int| 0 <= k < i ==> (#[trigger] sections[k]) is Missing
}

/// Entry `j` is the first one titled `"Album"`.
pub open spec fn is_first_album(entries: Seq<MetadataEntry>, j: int) -> bool {
    &&& 0 <= j < entries.len()
    &&& is_album_entry(entries[j])
    &&& forall|k: int| 0 <= k < j ==> !is_album_entry(#[trigger] entries[k])
}

/// The album of a result with `sections`: the metadata of the first section
/// that has any is searched for its first line titled `"Album"`, and that
/// line's text is the album.
pub open spec fn album_text(sections: Seq<SectionMetadata>) -> Option<Seq<char>> {
    if exists|i: int| is_first_present(sections, i) {
        let i = choose|i: int| is_first_present(sections, i);
        match sections[i] {
            SectionMetadata::Entries(entries) => {
                if exists|j: int| is_first_album(entries@, j) {
                    let j = choose|j: int| is_first_album(entries@, j);
                    match entries@[j].text {
                        Some(t) => Some(t@),
                        None => None,
                    }
                } else {
                    None
                }
            },
            _ => None,
        }
    } else {
        None
    }
}

/// The view of an optional string.
pub open spec fn opt_view(s: Option<String>) -> Option<Seq<char>> {
    match s {
        Some(t) => Some(t@),
        None => None,
    }
}

/// The position of the first section that has metadata.
fn first_present(sections: &Vec<SectionMetadata>) -> (r: Option<usize>)
    ensures
        r is Some ==> is_first_present(sections@, r->Some_0 as int),
        r is None ==> !exists|i: int| is_first_present(sections@, i),
{
    let mut i: usize = 0;
    while i < sections.len()
        invariant
            i <= sections@.len(),
            forall|k: int| 0 <= k < i ==> (#[trigger] sections@[k]) is Missing,
        decreases sections@.len() - i,
    {
        match &sections[i] {
            SectionMetadata::Missing => {},
            _ => {
                return Some(i);
            },
        }
        i = i + 1;
    }
    proof {
        assert forall|i: int| !is_first_present(sections@, i) by {
            if 0 <= i < sections@.len() {
                assert(sections@[i] is Missing);
            }
        }
    }
    None
}

/// The position of the first entry titled `"Album"`.
fn first_album(entries: &Vec<MetadataEntry>) -> (r: Option<usize>)
    ensures
        r is Some ==> is_first_album(entries@, r->Some_0 as int),
        r is None ==> !exists|j: int| is_first_album(entries@, j),
{
    let album = "Album".to_owned();
    proof {
        assert(album@ == album_title());
    }
    let mut j: usize = 0;
    while j < entries.len()
        invariant
            j <= entries@.len(),
            album@ == album_title(),
            forall|k: int| 0 <= k < j ==> !is_album_entry(#[trigger] entries@[k]),
        decreases entries@.len() - j,
    {
        if let Some(title) = &entries[j].title {
            if *title == album {
                return Some(j);
            }
        }
        j = j + 1;
    }
    proof {
        assert forall|j: int| !is_first_album(entries@, j) by {
            if 0 <= j < entries@.len() {
                assert(!is_album_entry(entries@[j]));
            }
        }
    }
    None
}

/// The album named in `sections`, as `album_text` describes it.
pub fn album_of(sections: &Vec<SectionMetadata>) -> (r: Option<String>)
    ensures
        opt_view(r) == album_text(sections@),
{
    match first_present(sections) {
        None => None,
        Some(i) => {
            proof {
                let c = choose|k: int| is_first_present(sections@, k);
                assert(is_first_present(sections@, c));
                assert(c == i as int) by {
                    if c < i {
                        assert(sections@[c] is Missing);
                    } else if c > i {
                        assert(sections@[i as int] is Missing);
                    }
                }
            }
            match &sections[i] {
                SectionMetadata::Entries(entries) => {
                    match first_album(entries) {
                        None => None,
                        Some(j) => {
                            proof {
                                let c = choose|k: int| is_first_album(entries@, k);
                                assert(is_first_album(entries@, c));
                                assert(c == j as int) by {
                                    if c < j {
                                        assert(!is_album_entry(entries@[c]));
                                    } else if c > j {
                                        assert(!is_album_entry(entries@[j as int]));
                                    }
                                }
                            }
                            entries[j].text.clone()
                        },
                    }
                },
                _ => None,
            }
        },
    }
}

/// The track a recognition result describes: the artist is the result's
/// subtitle, the track its title, the artwork its three image URLs, and the
/// album as `album_text` describes it (none without a list of sections).
pub fn track_of(fields: TrackFields) -> (r: Track)
    ensures
        r.artist == fields.subtitle,
        r.track == fields.title,
        r.art.background == fields.background,
        r.art.coverart == fields.coverart,
        r.art.coverarthq == fields.coverarthq,
        fields.sections is None ==> r.album is None,
        fields.sections is Some ==> opt_view(r.album) == album_text(fields.sections->Some_0@),
{
    let album = match &fields.sections {
        Some(sections) => album_of(sections),
        None => None,
    };
    Track {
        art: Art {
            background: fields.background,
            coverart: fields.coverart,
            coverarthq: fields.coverarthq,
        },
        artist: fields.subtitle,
        track: fields.title,
        album,
    }
}

} // verus!
