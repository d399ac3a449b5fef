use lofty::config::ParseOptions;
use lofty::file::{AudioFile, FileType, TaggedFileExt};
use lofty::probe::Probe;
use lofty::tag::Accessor;
use std::io::Cursor;
use vstd::prelude::*;
use vstd::string::StringExecFns;

use crate::picture::{picture_type_of_code, pick_picture_index, preferred_picture, PictureType};
use crate::timespan::TimeSpan;

verus! {

/// A picture embedded in a tag; its type is kept as its ID3v2 APIC number.
pub struct PictureInfo {
    pub apic_code: u8,
    pub data: Vec<u8>,
    pub mime_type: Option<String>,
}

pub struct PictureView {
    pub apic_code: u8,
    pub data: Seq<u8>,
    pub mime_type: Option<Seq<char>>,
}

/// The fields of a tag as values.
pub struct TagView {
    pub title: Option<Seq<char>>,
    pub artist: Option<Seq<char>>,
    pub album: Option<Seq<char>>,
    pub track: Option<u32>,
    pub disk: Option<u32>,
    pub pictures: Seq<PictureView>,
}

/// The columns a tag gives the window and the playlist.
pub struct TagColumns {
    pub title: Option<Seq<char>>,
    pub artist: Option<Seq<char>>,
    pub album: Option<Seq<char>>,
    pub track_no: Option<u16>,
}

pub open spec fn text_view(s: Option<String>) -> Option<Seq<char>> {
    match s {
        Some(x) => Some(x@),
        None => None,
    }
}

impl View for PictureInfo {
    type V = PictureView;

    open spec fn view(&self) -> PictureView {
        PictureView { apic_code: self.apic_code, data: self.data@, mime_type: text_view(self.mime_type) }
    }
}

/// The fields of a tag that the player reads.
pub struct TagInfo {
    pub title: Option<String>,
    pub artist: Option<String>,
    pub album: Option<String>,
    pub track: Option<u32>,
    pub disk: Option<u32>,
    pub pictures: Vec<PictureInfo>,
}

impl View for TagInfo {
    type V = TagView;

    open spec fn view(&self) -> TagView {
        TagView {
            title: text_view(self.title),
            artist: text_view(self.artist),
            album: text_view(self.album),
            track: self.track,
            disk: self.disk,
            pictures: self.pictures@.map_values(|p: PictureInfo| p@),
        }
    }
}

pub open spec fn tag_view(t: Option<TagInfo>) -> Option<TagView> {
    match t {
        Some(x) => Some(x@),
        None => None,
    }
}

/// The stream properties of an audio file.
#[derive(Clone, Copy, Debug, PartialEq, Eq, Structural)]
pub struct AudioInfo {
    pub sample_rate: Option<u32>,
    pub audio_bitrate: Option<u32>,
    pub channels: Option<u8>,
    pub bit_depth: Option<u8>,
}

/// The container format of an audio file. `Custom` stands for a format
/// registered by a user of the tag reader, or one it learns later.
#[derive(Clone, Copy, Debug, PartialEq, Eq, Structural)]
pub enum FileKind {
    Aac,
    Aiff,
    Ape,
    Flac,
    Mpeg,
    Mp4,
    Mpc,
    Opus,
    Vorbis,
    Speex,
    Wav,
    WavPack,
    Custom,
}

impl FileKind {
    /// Whether the format's name depends on the codec inside the file, which
    /// then has to be read: true for MP4 only.
    pub fn names_codec(&self) -> (r: bool)
        ensures
            r == (*self is Mp4),
    {
        match self {
            FileKind::Mp4 => true,
            _ => false,
        }
    }
}

/// The codec inside an MP4 container.
#[derive(Clone, Copy, Debug, PartialEq, Eq, Structural)]
pub enum Mp4Codec {
    Unknown,
    AAC,
    ALAC,
    MP3,
    FLAC,
}

/// Everything the window shows about the loaded file.
pub struct TrackMetadata {
    pub title: Option<String>,
    pub artist: Option<String>,
    pub album: Option<String>,
    pub track_no: Option<u16>,
    pub disc_no: Option<u16>,
    pub picture: Option<(Vec<u8>, String)>,
    pub sample_rate_hz: Option<u32>,
    pub bitrate_kbps: Option<u32>,
    pub channels: Option<u8>,
    pub bit_depth: Option<u8>,
    pub file_format: Option<String>,
}

/// The columns of one playlist row that come from the file's tag.
pub struct TrackSummary {
    pub title: Option<String>,
    pub artist: Option<String>,
    pub album: Option<String>,
    pub track_no: Option<u16>,
}

pub open spec fn picture_types(pictures: Seq<PictureView>) -> Seq<PictureType> {
    pictures.map_values(|p: PictureView| picture_type_of_code(p.apic_code))
}

/// The media type of a picture, taken to be JPEG when the tag does not say.
pub open spec fn mime_or_jpeg(mime: Option<Seq<char>>) -> Seq<char> {
    match mime {
        Some(m) => m,
        None => "image/jpeg"@,
    }
}

/// The bytes and media type of the picture a tag offers for display.
pub open spec fn chosen_picture(tag: Option<TagView>) -> Option<(Seq<u8>, Seq<char>)> {
    match tag {
        None => None,
        Some(t) => match preferred_picture(picture_types(t.pictures)) {
            None => None,
            Some(i) => Some((t.pictures[i].data, mime_or_jpeg(t.pictures[i].mime_type))),
        },
    }
}

/// The name the window gives a file's format; for MP4 the codec's name (and
/// `mp4` for a codec it does not name), or nothing when the codec could not
/// be read.
pub open spec fn format_name(kind: FileKind, codec: Option<Mp4Codec>) -> Option<Seq<char>> {
    match kind {
        FileKind::Mpeg => Some("mp3"@),
        FileKind::Flac => Some("flac"@),
        FileKind::Wav => Some("wav"@),
        FileKind::Vorbis => Some("ogg"@),
        FileKind::Mp4 => match codec {
            Some(Mp4Codec::AAC) => Some("AAC"@),
            Some(Mp4Codec::ALAC) => Some("ALAC"@),
            Some(Mp4Codec::MP3) => Some("MP3"@),
            Some(Mp4Codec::FLAC) => Some("FLAC"@),
            Some(Mp4Codec::Unknown) => Some("mp4"@),
            None => None,
        },
        FileKind::Mpc => Some("mpc"@),
        FileKind::Opus => Some("opus"@),
        FileKind::Ape => Some("ape"@),
        FileKind::Aac => Some("aac"@),
        FileKind::Aiff => Some("aiff"@),
        FileKind::Speex => Some("speex"@),
        FileKind::WavPack => Some("wv"@),
        FileKind::Custom => None,
    }
}

/// A track or disc number as the window keeps it: its low 16 bits.
pub open spec fn low_bits(n: Option<u32>) -> Option<u16> {
    match n {
        Some(v) => Some((v as int % 65536) as u16),
        None => None,
    }
}

/// The tag a file is described by: its primary tag, else its first one.
pub open spec fn chosen_tag(primary: Option<TagView>, first: Option<TagView>) -> Option<TagView> {
    match primary {
        Some(t) => Some(t),
        None => first,
    }
}

/// What a tag shows in the title, artist, album and track columns; both the
/// window's header and the playlist rows are made of these.
pub open spec fn tag_columns(tag: Option<TagView>) -> TagColumns {
    match tag {
        Some(t) => TagColumns { title: t.title, artist: t.artist, album: t.album, track_no: low_bits(t.track) },
        None => TagColumns { title: None, artist: None, album: None, track_no: None },
    }
}

pub open spec fn disc_of(tag: Option<TagView>) -> Option<u16> {
    match tag {
        Some(t) => low_bits(t.disk),
        None => None,
    }
}

/// `m` is what the window shows for a file with the chosen tag `tag`, the
/// stream properties `props`, the format `kind` and the MP4 codec `codec`.
pub open spec fn describes(m: TrackMetadata, tag: Option<TagView>, props: AudioInfo, kind: FileKind, codec: Option<Mp4Codec>) -> bool {
    let cols = tag_columns(tag);
    &&& text_view(m.title) == cols.title
    &&& text_view(m.artist) == cols.artist
    &&& text_view(m.album) == cols.album
    &&& m.track_no == cols.track_no
    &&& m.disc_no == disc_of(tag)
    &&& match m.picture {
        Some((data, mime)) => chosen_picture(tag) == Some((data@, mime@)),
        None => chosen_picture(tag) is None,
    }
    &&& m.sample_rate_hz == props.sample_rate
    &&& m.bitrate_kbps == props.audio_bitrate
    &&& m.channels == props.channels
    &&& m.bit_depth == props.bit_depth
    &&& text_view(m.file_format) == format_name(kind, codec)
}

pub open spec fn summary_columns(s: TrackSummary) -> TagColumns {
    TagColumns { title: text_view(s.title), artist: text_view(s.artist), album: text_view(s.album), track_no: s.track_no }
}

fn low_u16(v: u32) -> (r: u16)
    ensures
        r as int == v as int % 65536,
{
    let r = (v & 0xffff) as u16;
    assert((v & 0xffff) as int == v as int % 65536) by (bit_vector);
    r
}

fn low_u16_option(n: Option<u32>) -> (r: Option<u16>)
    ensures
        r == low_bits(n),
{
    match n {
        Some(v) => Some(low_u16(v)),
        None => None,
    }
}

fn copy_bytes(data: &Vec<u8>) -> (r: Vec<u8>)
    ensures
        r@ == data@,
{
    let mut out: Vec<u8> = Vec::new();
    let mut i: usize = 0;
    while i < data.len()
        invariant
            i <= data@.len(),
            out@ == data@.subrange(0, i as int),
        decreases data@.len() - i,
    {
        out.push(data[i]);
        i = i + 1;
        assert(out@ =~= data@.subrange(0, i as int));
    }
    assert(data@.subrange(0, data@.len() as int) =~= data@);
    out
}

/// The picture to display from a tag, with its media type (`image/jpeg` when
/// the tag gives none): the first front cover, else the first picture.
pub fn extract_picture(tag: Option<&TagInfo>) -> (r: Option<(Vec<u8>, String)>)
    ensures
        match r {
            Some((data, mime)) => chosen_picture(match tag { Some(t) => Some(t@), None => None })
                == Some((data@, mime@)),
            None => chosen_picture(match tag { Some(t) => Some(t@), None => None }) is None,
        },
{
    let t = match tag {
        Some(t) => t,
        None => return None,
    };
    let ghost pics = t@.pictures;
    let mut types: Vec<PictureType> = Vec::new();
    let mut i: usize = 0;
    while i < t.pictures.len()
        invariant
            i <= t.pictures@.len(),
            pics == t.pictures@.map_values(|p: PictureInfo| p@),
            types@ == picture_types(pics.subrange(0, i as int)),
        decreases t.pictures@.len() - i,
    {
        types.push(PictureType::from_apic_code(t.pictures[i].apic_code));
        i = i + 1;
        assert(types@ =~= picture_types(pics.subrange(0, i as int)));
    }
    assert(pics.subrange(0, pics.len() as int) =~= pics);
    assert(types@ == picture_types(t@.pictures));
    let idx = match pick_picture_index(types.as_slice()) {
        Some(idx) => idx,
        None => return None,
    };
    let pic = &t.pictures[idx];
    assert(t@.pictures[idx as int] == pic@);
    let data = copy_bytes(&pic.data);
    let mime = match &pic.mime_type {
        Some(m) => m.clone(),
        None => String::from_str("image/jpeg"),
    };
    Some((data, mime))
}

/// The name of a file's format for the window.
pub fn file_format_name(kind: FileKind, codec: Option<Mp4Codec>) -> (r: Option<String>)
    ensures
        text_view(r) == format_name(kind, codec),
{
    let name: &str = match kind {
        FileKind::Mpeg => "mp3",
        FileKind::Flac => "flac",
        FileKind::Wav => "wav",
        FileKind::Vorbis => "ogg",
        FileKind::Mp4 => match codec {
            Some(Mp4Codec::AAC) => "AAC",
            Some(Mp4Codec::ALAC) => "ALAC",
            Some(Mp4Codec::MP3) => "MP3",
            Some(Mp4Codec::FLAC) => "FLAC",
            Some(Mp4Codec::Unknown) => "mp4",
            None => return None,
        },
        FileKind::Mpc => "mpc",
        FileKind::Opus => "opus",
        FileKind::Ape => "ape",
        FileKind::Aac => "aac",
        FileKind::Aiff => "aiff",
        FileKind::Speex => "speex",
        FileKind::WavPack => "wv",
        FileKind::Custom => return None,
    };
    Some(String::from_str(name))
}

/// Collects what the window shows about a file from its tags, stream
/// properties and format.
pub fn read_metadata(
    primary: Option<TagInfo>,
    first: Option<TagInfo>,
    props: AudioInfo,
    kind: FileKind,
    codec: Option<Mp4Codec>,
) -> (r: TrackMetadata)
    ensures
        describes(r, chosen_tag(tag_view(primary), tag_view(first)), props, kind, codec),
{
    let tag = match primary {
        Some(t) => Some(t),
        None => first,
    };
    let picture = extract_picture(tag.as_ref());
    let file_format = file_format_name(kind, codec);
    match tag {
        Some(t) => TrackMetadata {
            title: t.title,
            artist: t.artist,
            album: t.album,
            track_no: low_u16_option(t.track),
            disc_no: low_u16_option(t.disk),
            picture,
            sample_rate_hz: props.sample_rate,
            bitrate_kbps: props.audio_bitrate,
            channels: props.channels,
            bit_depth: props.bit_depth,
            file_format,
        },
        None => TrackMetadata {
            title: None,
            artist: None,
            album: None,
            track_no: None,
            disc_no: None,
            picture,
            sample_rate_hz: props.sample_rate,
            bitrate_kbps: props.audio_bitrate,
            channels: props.channels,
            bit_depth: props.bit_depth,
            file_format,
        },
    }
}

/// The tag columns of a playlist row, from the file's primary tag or else
/// its first one: the same columns `read_metadata` gives the window.
pub fn summarize_tag(primary: Option<TagInfo>, first: Option<TagInfo>) -> (r: TrackSummary)
    ensures
        summary_columns(r) == tag_columns(chosen_tag(tag_view(primary), tag_view(first))),
{
    let tag = match primary {
        Some(t) => Some(t),
        None => first,
    };
    match tag {
        Some(t) => TrackSummary { title: t.title, artist: t.artist, album: t.album, track_no: low_u16_option(t.track) },
        None => TrackSummary { title: None, artist: None, album: None, track_no: None },
    }
}

/// A character with ASCII capitals lowered (`str::to_ascii_lowercase`).
pub open spec fn ascii_lower_char(c: char) -> char {
    if 'A' <= c && c <= 'Z' {
        (c as int + 32) as char
    } else {
        c
    }
}

/// A text with ASCII capitals lowered.
pub open spec fn ascii_lower_chars(s: Seq<char>) -> Seq<char> {
    s.map_values(|c: char| ascii_lower_char(c))
}

/// The format a file is read as by its extension, compared in small letters
/// against the table of the tag reader; `None` for an extension it does not
/// know.
pub open spec fn extension_kind(ext: Seq<char>) -> Option<FileKind> {
    let e = ascii_lower_chars(ext);
    if e == seq!['a', 'a', 'c'] {
        Some(FileKind::Aac)
    } else if e == seq!['a', 'p', 'e'] {
        Some(FileKind::Ape)
    } else if e == seq!['a', 'i', 'f', 'f'] || e == seq!['a', 'i', 'f'] || e == seq!['a', 'f', 'c']
        || e == seq!['a', 'i', 'f', 'c'] {
        Some(FileKind::Aiff)
    } else if e == seq!['m', 'p', '3'] || e == seq!['m', 'p', '2'] || e == seq!['m', 'p', '1'] {
        Some(FileKind::Mpeg)
    } else if e == seq!['w', 'a', 'v'] || e == seq!['w', 'a', 'v', 'e'] {
        Some(FileKind::Wav)
    } else if e == seq!['w', 'v'] {
        Some(FileKind::WavPack)
    } else if e == seq!['o', 'p', 'u', 's'] {
        Some(FileKind::Opus)
    } else if e == seq!['f', 'l', 'a', 'c'] {
        Some(FileKind::Flac)
    } else if e == seq!['o', 'g', 'g'] {
        Some(FileKind::Vorbis)
    } else if e == seq!['m', 'p', '4'] || e == seq!['m', '4', 'a'] || e == seq!['m', '4', 'b']
        || e == seq!['m', '4', 'p'] || e == seq!['m', '4', 'r'] || e == seq!['m', '4', 'v']
        || e == seq!['3', 'g', 'p'] {
        Some(FileKind::Mp4)
    } else if e == seq!['m', 'p', 'c'] || e == seq!['m', 'p', '+'] || e == seq!['m', 'p', 'p'] {
        Some(FileKind::Mpc)
    } else if e == seq!['s', 'p', 'x'] {
        Some(FileKind::Speex)
    } else {
        None
    }
}

/// The primary tag (`TaggedFileExt::primary_tag`) of the file lofty reads
/// from `bytes` as the format of extension `ext` (`Probe::with_file_type`,
/// `Probe::read`); the outer `None` when it cannot read them.
pub uninterp spec fn lofty_primary_tag(bytes: Seq<u8>, ext: Seq<char>) -> Option<Option<TagView>>;

/// The first tag (`TaggedFileExt::first_tag`) of that file, likewise.
pub uninterp spec fn lofty_first_tag(bytes: Seq<u8>, ext: Seq<char>) -> Option<Option<TagView>>;

/// The stream properties and length (`TaggedFileExt::properties`) of that
/// file, likewise.
pub uninterp spec fn lofty_properties(bytes: Seq<u8>, ext: Seq<char>) -> Option<(AudioInfo, TimeSpan)>;

/// The codec of the MP4 file lofty reads from `bytes` (`Mp4File::read_from`,
/// `Mp4Properties::codec`), `None` when it cannot read them.
pub uninterp spec fn lofty_mp4_codec(bytes: Seq<u8>) -> Option<Mp4Codec>;

/// Calls `FileType::from_ext` and converts its variants one for one (any
/// other, such as a custom type, as `Custom`). Claimed: the result is the
/// match of the lowered extension against the table of `from_ext`. That
/// holds while no custom file-type resolver is registered with lofty (one
/// would take priority); this program registers none.
#[verifier::external_body]
fn file_kind_for(ext: &str) -> (r: Option<FileKind>)
    ensures
        r == extension_kind(ext@),
{
    Some(match FileType::from_ext(ext)? {
        FileType::Aac => FileKind::Aac, FileType::Aiff => FileKind::Aiff, FileType::Ape => FileKind::Ape,
        FileType::Flac => FileKind::Flac, FileType::Mpeg => FileKind::Mpeg, FileType::Mp4 => FileKind::Mp4,
        FileType::Mpc => FileKind::Mpc, FileType::Opus => FileKind::Opus, FileType::Vorbis => FileKind::Vorbis,
        FileType::Speex => FileKind::Speex, FileType::Wav => FileKind::Wav, FileType::WavPack => FileKind::WavPack,
        _ => FileKind::Custom,
    })
}

/// Calls `FileType::from_ext`, `Probe::with_file_type`, `Probe::read` and
/// `TaggedFileExt::primary_tag`, and copies the tag's title, artist, album,
/// track, disk and pictures (`Accessor`, `Tag::pictures`). Claimed: the
/// result depends on the bytes and the extension alone (lofty parses tags
/// with integer and text operations; no custom resolver is registered), and
/// nothing is read for an extension `FileType::from_ext` does not know.
#[verifier::external_body]
fn parse_primary_tag(bytes: &[u8], ext: &str) -> (r: Option<Option<TagInfo>>)
    ensures
        match r { Some(t) => lofty_primary_tag(bytes@, ext@) == Some(tag_view(t)), None => lofty_primary_tag(bytes@, ext@) is None },
        r is Some ==> extension_kind(ext@) is Some,
{
    let file = Probe::with_file_type(Cursor::new(bytes), FileType::from_ext(ext)?).read().ok()?;
    Some(file.primary_tag().map(|t| TagInfo {
        title: t.title().map(String::from),
        artist: t.artist().map(String::from),
        album: t.album().map(String::from),
        track: t.track(),
        disk: t.disk(),
        pictures: t.pictures().iter().map(|p| PictureInfo {
            apic_code: p.pic_type().as_u8(), data: p.data().to_vec(), mime_type: p.mime_type().map(ToString::to_string),
        }).collect(),
    }))
}

/// As `parse_primary_tag`, with `TaggedFileExt::first_tag`.
#[verifier::external_body]
fn parse_first_tag(bytes: &[u8], ext: &str) -> (r: Option<Option<TagInfo>>)
    ensures
        match r { Some(t) => lofty_first_tag(bytes@, ext@) == Some(tag_view(t)), None => lofty_first_tag(bytes@, ext@) is None },
        r is Some ==> extension_kind(ext@) is Some,
{
    let file = Probe::with_file_type(Cursor::new(bytes), FileType::from_ext(ext)?).read().ok()?;
    Some(file.first_tag().map(|t| TagInfo {
        title: t.title().map(String::from),
        artist: t.artist().map(String::from),
        album: t.album().map(String::from),
        track: t.track(),
        disk: t.disk(),
        pictures: t.pictures().iter().map(|p| PictureInfo {
            apic_code: p.pic_type().as_u8(), data: p.data().to_vec(), mime_type: p.mime_type().map(ToString::to_string),
        }).collect(),
    }))
}

/// Calls `FileType::from_ext`, `Probe::with_file_type`, `Probe::read` and
/// `TaggedFileExt::properties`, and copies the sample rate, audio bit rate,
/// channels, bit depth and duration. Claimed: the result depends on the
/// bytes and the extension alone (lofty derives them with integer and basic
/// floating-point operations, which are exactly rounded), and nothing is
/// read for an extension `FileType::from_ext` does not know.
#[verifier::external_body]
fn parse_properties(bytes: &[u8], ext: &str) -> (r: Option<(AudioInfo, TimeSpan)>)
    ensures
        r == lofty_properties(bytes@, ext@),
        r is Some ==> extension_kind(ext@) is Some,
{
    let file = Probe::with_file_type(Cursor::new(bytes), FileType::from_ext(ext)?).read().ok()?;
    let p = file.properties();
    let d = p.duration();
    let info = AudioInfo { sample_rate: p.sample_rate(), audio_bitrate: p.audio_bitrate(), channels: p.channels(), bit_depth: p.bit_depth() };
    Some((info, TimeSpan { secs: d.as_secs(), nanos: d.subsec_nanos() }))
}

/// Calls `Mp4File::read_from` (default `ParseOptions`) and converts the
/// codec of its properties one variant for one (a codec lofty adds later as
/// `Unknown`). Claimed: the result depends on the bytes alone.
#[verifier::external_body]
fn parse_mp4_codec(bytes: &[u8]) -> (r: Option<Mp4Codec>)
    ensures
        r == lofty_mp4_codec(bytes@),
{
    let mp4 = lofty::mp4::Mp4File::read_from(&mut Cursor::new(bytes), ParseOptions::new()).ok()?;
    Some(match mp4.properties().codec() {
        lofty::mp4::Mp4Codec::AAC => Mp4Codec::AAC, lofty::mp4::Mp4Codec::ALAC => Mp4Codec::ALAC,
        lofty::mp4::Mp4Codec::MP3 => Mp4Codec::MP3, lofty::mp4::Mp4Codec::FLAC => Mp4Codec::FLAC,
        _ => Mp4Codec::Unknown,
    })
}

/// The metadata the window shows for a file's contents, read as the format
/// of its extension `ext`; `None` when lofty cannot read them.
pub fn file_metadata(bytes: &[u8], ext: &str) -> (r: Option<TrackMetadata>)
    ensures
        r is None <==> (lofty_primary_tag(bytes@, ext@) is None || lofty_first_tag(bytes@, ext@) is None
            || lofty_properties(bytes@, ext@) is None),
        r matches Some(m) ==> ({
            let kind = extension_kind(ext@).unwrap();
            describes(
                m,
                chosen_tag(lofty_primary_tag(bytes@, ext@).unwrap(), lofty_first_tag(bytes@, ext@).unwrap()),
                lofty_properties(bytes@, ext@).unwrap().0,
                kind,
                if kind is Mp4 { lofty_mp4_codec(bytes@) } else { None },
            )
        }),
{
    let primary = match parse_primary_tag(bytes, ext) {
        Some(t) => t,
        None => return None,
    };
    let first = match parse_first_tag(bytes, ext) {
        Some(t) => t,
        None => return None,
    };
    let props = match parse_properties(bytes, ext) {
        Some(p) => p.0,
        None => return None,
    };
    let kind = match file_kind_for(ext) {
        Some(k) => k,
        None => return None,
    };
    let codec = if kind.names_codec() { parse_mp4_codec(bytes) } else { None };
    Some(read_metadata(primary, first, props, kind, codec))
}

/// The tag columns and the length of a playlist file, from its contents read
/// as the format of its extension `ext`; `None` when lofty cannot read them.
pub fn file_summary(bytes: &[u8], ext: &str) -> (r: Option<(TrackSummary, TimeSpan)>)
    ensures
        r is None <==> (lofty_primary_tag(bytes@, ext@) is None || lofty_first_tag(bytes@, ext@) is None
            || lofty_properties(bytes@, ext@) is None),
        r matches Some((s, d)) ==> summary_columns(s) == tag_columns(
            chosen_tag(lofty_primary_tag(bytes@, ext@).unwrap(), lofty_first_tag(bytes@, ext@).unwrap()))
            && d == lofty_properties(bytes@, ext@).unwrap().1,
{
    let primary = match parse_primary_tag(bytes, ext) {
        Some(t) => t,
        None => return None,
    };
    let first = match parse_first_tag(bytes, ext) {
        Some(t) => t,
        None => return None,
    };
    let duration = match parse_properties(bytes, ext) {
        Some(p) => p.1,
        None => return None,
    };
    Some((summarize_tag(primary, first), duration))
}


/// A playlist row and the window's header show the same title, artist,
/// album and track number for the same file: the row made by `file_summary`
/// and the header made by `file_metadata` from the same bytes agree.
pub proof fn law_playlist_row_matches_header(bytes: Seq<u8>, ext: Seq<char>, m: TrackMetadata, s: TrackSummary, kind: FileKind, codec: Option<Mp4Codec>)
    requires
        lofty_primary_tag(bytes, ext) is Some,
        lofty_first_tag(bytes, ext) is Some,
        lofty_properties(bytes, ext) is Some,
        describes(m, chosen_tag(lofty_primary_tag(bytes, ext).unwrap(), lofty_first_tag(bytes, ext).unwrap()),
            lofty_properties(bytes, ext).unwrap().0, kind, codec),
        summary_columns(s) == tag_columns(chosen_tag(lofty_primary_tag(bytes, ext).unwrap(), lofty_first_tag(bytes, ext).unwrap())),
    ensures
        text_view(m.title) == text_view(s.title),
        text_view(m.artist) == text_view(s.artist),
        text_view(m.album) == text_view(s.album),
        m.track_no == s.track_no,
{
}

/// The names of the formats other than MP4, spelled out.
proof fn lemma_format_name_letters()
    ensures
        "mp3"@ == seq!['m', 'p', '3'],
        "flac"@ == seq!['f', 'l', 'a', 'c'],
        "wav"@ == seq!['w', 'a', 'v'],
        "ogg"@ == seq!['o', 'g', 'g'],
        "mpc"@ == seq!['m', 'p', 'c'],
        "opus"@ == seq!['o', 'p', 'u', 's'],
        "ape"@ == seq!['a', 'p', 'e'],
        "aac"@ == seq!['a', 'a', 'c'],
        "aiff"@ == seq!['a', 'i', 'f', 'f'],
        "speex"@ == seq!['s', 'p', 'e', 'e', 'x'],
        "wv"@ == seq!['w', 'v'],
{
    reveal_strlit("mp3");
    reveal_strlit("flac");
    reveal_strlit("wav");
    reveal_strlit("ogg");
    reveal_strlit("mpc");
    reveal_strlit("opus");
    reveal_strlit("ape");
    reveal_strlit("aac");
    reveal_strlit("aiff");
    reveal_strlit("speex");
    reveal_strlit("wv");
}

/// Outside MP4, a format's name is an extension of that same format: read
/// back as a file extension, the name gives the format it names (Speex,
/// named `speex` while its extension is `spx`, is the one exception). A
/// format without a name is a custom one, or MP4 whose codec could not be
/// read.
pub proof fn law_format_name_is_an_extension_of_the_format(kind: FileKind, codec: Option<Mp4Codec>)
    ensures
        format_name(kind, codec) is None <==> (kind is Custom || (kind is Mp4 && codec is None)),
        !(kind is Mp4) && !(kind is Custom) && !(kind is Speex) ==> (format_name(kind, codec) matches Some(n)
            && extension_kind(n) == Some(kind)),
{
    lemma_format_name_letters();
    if !(kind is Mp4) && !(kind is Custom) && !(kind is Speex) {
        let n = format_name(kind, codec).unwrap();
        assert(ascii_lower_chars(n) =~= n);
    }
}

/// Formats other than MP4 never share a name: two different ones are shown
/// under two different names, whatever the codec.
pub proof fn law_format_names_tell_formats_apart(k1: FileKind, c1: Option<Mp4Codec>, k2: FileKind, c2: Option<Mp4Codec>)
    requires
        k1 != k2,
        !(k1 is Mp4) && !(k1 is Custom),
        !(k2 is Mp4) && !(k2 is Custom),
    ensures
        format_name(k1, c1) != format_name(k2, c2),
{
    lemma_format_name_letters();
    law_format_name_is_an_extension_of_the_format(k1, c1);
    law_format_name_is_an_extension_of_the_format(k2, c2);
    if k1 is Speex || k2 is Speex {
        assert(format_name(k1, c1).unwrap().len() != format_name(k2, c2).unwrap().len()
            || format_name(k1, c1).unwrap()[0] != format_name(k2, c2).unwrap()[0]);
    }
}

/// What the window shows of a tag: its title, artist and album as they are,
/// and its track and disc numbers cut to their low 16 bits.
pub open spec fn shows_tag(m: TrackMetadata, t: TagView) -> bool {
    &&& text_view(m.title) == t.title
    &&& text_view(m.artist) == t.artist
    &&& text_view(m.album) == t.album
    &&& (t.track matches Some(n) ==> m.track_no == Some((n as int % 65536) as u16))
    &&& (t.track is None ==> m.track_no is None)
    &&& (t.disk matches Some(n) ==> m.disc_no == Some((n as int % 65536) as u16))
    &&& (t.disk is None ==> m.disc_no is None)
}

/// A file is described by its primary tag when it has one, else by its
/// first tag, else by nothing: the text fields are copied from that tag
/// unchanged, and the stream fields are the stream properties one for one.
pub proof fn law_metadata_copies_the_preferred_tag(
    m: TrackMetadata,
    primary: Option<TagView>,
    first: Option<TagView>,
    props: AudioInfo,
    kind: FileKind,
    codec: Option<Mp4Codec>,
)
    requires
        describes(m, chosen_tag(primary, first), props, kind, codec),
    ensures
        primary matches Some(t) ==> shows_tag(m, t),
        primary is None ==> (first matches Some(t) ==> shows_tag(m, t)),
        primary is None && first is None ==> m.title is None && m.artist is None && m.album is None
            && m.track_no is None && m.disc_no is None && m.picture is None,
        m.sample_rate_hz == props.sample_rate,
        m.bitrate_kbps == props.audio_bitrate,
        m.channels == props.channels,
        m.bit_depth == props.bit_depth,
{
}

} // verus!
