use taupe::cover::cover_art;
use taupe::metadata::{
    extract_picture, file_format_name, file_metadata, file_summary, read_metadata, summarize_tag,
    AudioInfo, FileKind, Mp4Codec, PictureInfo, TagInfo,
};
use taupe::picture::PictureType;

fn pic(t: PictureType, data: &[u8], mime: Option<&str>) -> PictureInfo {
    PictureInfo { apic_code: t.apic_code(), data: data.to_vec(), mime_type: mime.map(|m| m.to_string()) }
}

fn tag(title: &str, pictures: Vec<PictureInfo>) -> TagInfo {
    TagInfo {
        title: Some(title.to_string()),
        artist: Some("Artist".to_string()),
        album: Some("Album".to_string()),
        track: Some(70_003),
        disk: Some(2),
        pictures,
    }
}

#[test]
fn extract_picture_prefers_front_cover() {
    let t = tag("t", vec![pic(PictureType::Other, &[1], Some("image/png")), pic(PictureType::CoverFront, &[2, 2], Some("image/png"))]);
    assert_eq!(extract_picture(Some(&t)), Some((vec![2, 2], "image/png".to_string())));
}

#[test]
fn extract_picture_defaults_mime_to_jpeg() {
    let t = tag("t", vec![pic(PictureType::Other, &[9], None)]);
    assert_eq!(extract_picture(Some(&t)), Some((vec![9], "image/jpeg".to_string())));
}

#[test]
fn extract_picture_none_without_tag_or_pictures() {
    assert_eq!(extract_picture(None), None);
    let t = tag("t", Vec::new());
    assert_eq!(extract_picture(Some(&t)), None);
}

#[test]
fn format_names() {
    assert_eq!(file_format_name(FileKind::Mpeg, None).as_deref(), Some("mp3"));
    assert_eq!(file_format_name(FileKind::Vorbis, None).as_deref(), Some("ogg"));
    assert_eq!(file_format_name(FileKind::WavPack, None).as_deref(), Some("wv"));
    assert_eq!(file_format_name(FileKind::Aiff, None).as_deref(), Some("aiff"));
    assert_eq!(file_format_name(FileKind::Custom, None), None);
    assert_eq!(file_format_name(FileKind::Mp4, Some(Mp4Codec::ALAC)).as_deref(), Some("ALAC"));
    assert_eq!(file_format_name(FileKind::Mp4, Some(Mp4Codec::AAC)).as_deref(), Some("AAC"));
    assert_eq!(file_format_name(FileKind::Mp4, Some(Mp4Codec::Unknown)).as_deref(), Some("mp4"));
    assert_eq!(file_format_name(FileKind::Mp4, None), None);
}

#[test]
fn metadata_from_primary_tag() {
    let props = AudioInfo { sample_rate: Some(44100), audio_bitrate: Some(1411), channels: Some(2), bit_depth: Some(16) };
    let m = read_metadata(Some(tag("Primary", Vec::new())), Some(tag("First", Vec::new())), props, FileKind::Flac, None);
    assert_eq!(m.title.as_deref(), Some("Primary"));
    assert_eq!(m.artist.as_deref(), Some("Artist"));
    // 70003 does not fit in 16 bits: the low 16 bits are kept.
    assert_eq!(m.track_no, Some((70_003u32 % 65_536) as u16));
    assert_eq!(m.disc_no, Some(2));
    assert_eq!(m.picture, None);
    assert_eq!(m.sample_rate_hz, Some(44100));
    assert_eq!(m.bitrate_kbps, Some(1411));
    assert_eq!(m.channels, Some(2));
    assert_eq!(m.bit_depth, Some(16));
    assert_eq!(m.file_format.as_deref(), Some("flac"));
}

#[test]
fn metadata_falls_back_to_first_tag_then_nothing() {
    let props = AudioInfo { sample_rate: None, audio_bitrate: None, channels: None, bit_depth: None };
    let m = read_metadata(None, Some(tag("First", vec![pic(PictureType::Icon, &[5], None)])), props, FileKind::Mp4, Some(Mp4Codec::FLAC));
    assert_eq!(m.title.as_deref(), Some("First"));
    assert_eq!(m.picture, Some((vec![5], "image/jpeg".to_string())));
    assert_eq!(m.file_format.as_deref(), Some("FLAC"));
    let m = read_metadata(None, None, props, FileKind::Custom, None);
    assert_eq!(m.title, None);
    assert_eq!(m.track_no, None);
    assert_eq!(m.picture, None);
    assert_eq!(m.file_format, None);
}

#[test]
fn summary_of_tags() {
    let s = summarize_tag(None, Some(tag("Row", Vec::new())));
    assert_eq!(s.title.as_deref(), Some("Row"));
    assert_eq!(s.album.as_deref(), Some("Album"));
    assert_eq!(s.track_no, Some(4467));
    let s = summarize_tag(None, None);
    assert_eq!(s.title, None);
    assert_eq!(s.track_no, None);
}

fn tiny_png() -> Vec<u8> {
    let img = image::RgbImage::from_pixel(2, 3, image::Rgb([200, 10, 30]));
    let mut out = Vec::new();
    image::DynamicImage::ImageRgb8(img)
        .write_to(&mut std::io::Cursor::new(&mut out), image::ImageFormat::Png)
        .unwrap();
    out
}

#[test]
fn cover_art_makes_an_80_pixel_png_thumbnail() {
    let original = tiny_png();
    let cover = cover_art(original.clone());
    assert_ne!(cover, original);
    assert_eq!(&cover[..8], &[137u8, 80, 78, 71, 13, 10, 26, 10]);
    let decoded = image::load_from_memory(&cover).unwrap();
    assert_eq!((decoded.width(), decoded.height()), (80, 80));
    assert_eq!(image::guess_format(&cover).unwrap(), image::ImageFormat::Png);
}

fn header_size(png: &[u8]) -> (u32, u32) {
    assert_eq!(&png[12..16], b"IHDR");
    let w = u32::from_be_bytes([png[16], png[17], png[18], png[19]]);
    let h = u32::from_be_bytes([png[20], png[21], png[22], png[23]]);
    (w, h)
}

#[test]
fn thumbnail_header_gives_the_requested_size() {
    let t = taupe::cover::make_thumbnail(&tiny_png(), 7, 5, taupe::cover::ResizeFilter::Lanczos3).unwrap();
    assert_eq!(&t[..8], &[137u8, 80, 78, 71, 13, 10, 26, 10]);
    assert_eq!(header_size(&t), (7, 5));
    assert_eq!(header_size(&cover_art(tiny_png())), (80, 80));
}

#[test]
fn cover_art_keeps_a_picture_png_cannot_hold() {
    let img = image::Rgb32FImage::from_pixel(4, 4, image::Rgb([0.5, 0.25, 1.0]));
    let mut hdr = Vec::new();
    image::DynamicImage::ImageRgb32F(img)
        .write_to(&mut std::io::Cursor::new(&mut hdr), image::ImageFormat::Hdr)
        .unwrap();
    assert!(image::load_from_memory(&hdr).is_ok());
    assert_eq!(taupe::cover::make_thumbnail(&hdr, 8, 8, taupe::cover::ResizeFilter::Nearest), None);
    assert_eq!(cover_art(hdr.clone()), hdr);
}

#[test]
fn cover_art_keeps_undecodable_bytes() {
    let junk = vec![0u8, 1, 2, 3, 4];
    assert_eq!(cover_art(junk.clone()), junk);
}

#[test]
fn only_mp4_names_its_codec() {
    assert!(FileKind::Mp4.names_codec());
    assert!(!FileKind::Flac.names_codec());
    assert!(!FileKind::Custom.names_codec());
}

#[test]
fn cover_art_turns_a_jpeg_into_a_png() {
    let img = image::RgbImage::from_pixel(16, 16, image::Rgb([1, 2, 3]));
    let mut jpeg = Vec::new();
    image::DynamicImage::ImageRgb8(img)
        .write_to(&mut std::io::Cursor::new(&mut jpeg), image::ImageFormat::Jpeg)
        .unwrap();
    let cover = cover_art(jpeg.clone());
    assert_eq!(&cover[..8], &[137u8, 80, 78, 71, 13, 10, 26, 10]);
    let decoded = image::load_from_memory(&cover).unwrap();
    assert_eq!((decoded.width(), decoded.height()), (80, 80));
}

#[test]
fn make_thumbnail_of_junk_is_none() {
    assert_eq!(taupe::cover::make_thumbnail(&[9, 9, 9], 10, 10, taupe::cover::ResizeFilter::Nearest), None);
    let t = taupe::cover::make_thumbnail(&tiny_png(), 4, 2, taupe::cover::ResizeFilter::Triangle).unwrap();
    let decoded = image::load_from_memory(&t).unwrap();
    assert_eq!((decoded.width(), decoded.height()), (4, 2));
}

#[test]
fn picture_types_from_apic_codes() {
    assert_eq!(PictureType::from_apic_code(3), PictureType::CoverFront);
    assert_eq!(PictureType::from_apic_code(0), PictureType::Other);
    assert_eq!(PictureType::from_apic_code(20), PictureType::PublisherLogo);
    assert_eq!(PictureType::from_apic_code(77), PictureType::Undefined(77));
    assert_eq!(PictureType::CoverBack.apic_code(), 4);
    assert_eq!(PictureType::Undefined(99).apic_code(), 99);
}

fn chunk(id: &[u8; 4], body: &[u8]) -> Vec<u8> {
    let mut out = id.to_vec();
    out.extend_from_slice(&(body.len() as u32).to_le_bytes());
    out.extend_from_slice(body);
    if body.len() % 2 == 1 {
        out.push(0);
    }
    out
}

fn text_item(id: &[u8; 4], text: &str) -> Vec<u8> {
    let mut body = text.as_bytes().to_vec();
    body.push(0);
    chunk(id, &body)
}

/// A one-second, mono, 8 kHz, 16-bit WAV file with a RIFF INFO tag.
fn tagged_wav() -> Vec<u8> {
    let mut fmt = Vec::new();
    fmt.extend_from_slice(&1u16.to_le_bytes());
    fmt.extend_from_slice(&1u16.to_le_bytes());
    fmt.extend_from_slice(&8000u32.to_le_bytes());
    fmt.extend_from_slice(&16000u32.to_le_bytes());
    fmt.extend_from_slice(&2u16.to_le_bytes());
    fmt.extend_from_slice(&16u16.to_le_bytes());
    let mut info = b"INFO".to_vec();
    info.extend(text_item(b"INAM", "Title"));
    info.extend(text_item(b"IART", "Band"));
    info.extend(text_item(b"IPRD", "Record"));
    info.extend(text_item(b"IPRT", "7"));
    let mut body = b"WAVE".to_vec();
    body.extend(chunk(b"fmt ", &fmt));
    body.extend(chunk(b"data", &vec![0u8; 16000]));
    body.extend(chunk(b"LIST", &info));
    chunk(b"RIFF", &body)
}

#[test]
fn file_metadata_reads_a_tagged_wav() {
    let m = file_metadata(&tagged_wav(), "wav").unwrap();
    assert_eq!(m.title.as_deref(), Some("Title"));
    assert_eq!(m.artist.as_deref(), Some("Band"));
    assert_eq!(m.album.as_deref(), Some("Record"));
    assert_eq!(m.track_no, Some(7));
    assert_eq!(m.disc_no, None);
    assert_eq!(m.picture, None);
    assert_eq!(m.sample_rate_hz, Some(8000));
    assert_eq!(m.channels, Some(1));
    assert_eq!(m.bit_depth, Some(16));
    assert_eq!(m.file_format.as_deref(), Some("wav"));
}

#[test]
fn file_metadata_goes_by_the_extension() {
    let m = file_metadata(&tagged_wav(), "WAV").unwrap();
    assert_eq!(m.file_format.as_deref(), Some("wav"));
    assert!(file_metadata(&tagged_wav(), "xyz").is_none());
    assert!(file_metadata(&tagged_wav(), "").is_none());
    assert!(file_metadata(&[1, 2, 3, 4], "wav").is_none());
}

#[test]
fn file_summary_matches_the_header() {
    let bytes = tagged_wav();
    let (s, length) = file_summary(&bytes, "wav").unwrap();
    let m = file_metadata(&bytes, "wav").unwrap();
    assert_eq!(s.title, m.title);
    assert_eq!(s.artist, m.artist);
    assert_eq!(s.album, m.album);
    assert_eq!(s.track_no, m.track_no);
    let nanos = length.secs as u128 * 1_000_000_000 + length.nanos as u128;
    assert!(nanos >= 900_000_000 && nanos <= 1_100_000_000);
    assert!(file_summary(&[0, 0], "flac").is_none());
}
