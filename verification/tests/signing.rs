use ya_music::api::resolve::{audio_url, download_data, select_download, signing_page_url};
use ya_music::api::signing::{
    build_link, direct_link, signature, signing_descriptor, SigningDescriptor, SIGNING_SECRET,
};
use ya_music::api::xml::{is_plain_document, MAX_DOCUMENT_LEN};
use ya_music::api::types::{Codec, DownloadInfo};
use ya_music::error::{ApiError, Reply};

fn page(host: &str, path: &str, s: &str, ts: &str) -> Vec<u8> {
    format!(
        "<?xml version=\"1.0\" encoding=\"utf-8\"?>\n<download-info>\n  <host>{}</host>\n  <path>{}</path>\n  <ts>{}</ts>\n  <region>-1</region>\n  <s>{}</s>\n</download-info>",
        host, path, ts, s
    )
    .into_bytes()
}

#[test]
fn direct_link_of_known_descriptor() {
    let descriptor = SigningDescriptor {
        host: "h".to_string(),
        path: "/p".to_string(),
        s: "sval".to_string(),
        ts: "t".to_string(),
    };
    let sign = hex::encode(md5::compute("XGRlBW9FXlekgbPrRHuSiApsval").0);
    assert_eq!(sign, "ec18c22213b779cb262ef7d7077f6f78");
    assert_eq!(signature("/p", "sval"), sign);
    assert_eq!(
        descriptor.direct_link(),
        "https://h/get-mp3/ec18c22213b779cb262ef7d7077f6f78/t/p"
    );
}

#[test]
fn secret_is_the_protocol_constant() {
    assert_eq!(SIGNING_SECRET, "XGRlBW9FXlekgbPrRHuSiA");
}

#[test]
fn signature_is_lower_case_hex_of_the_digest() {
    let sign = signature("/get-mp3/abc/track.mp3", "token");
    assert_eq!(sign, "2292ceb66a405fd8a8d927c24c6792c9");
    assert_eq!(sign.len(), 32);
    assert_ne!(sign, "/get-mp3/abc/track.mp3");
}

#[test]
fn signature_drops_only_the_first_character_of_the_path() {
    // The path is its separator alone: nothing of it is hashed.
    assert_eq!(signature("/", ""), "20ad587cb50b5ffb995f2fbf11ae4c17");
    // The first character goes, whatever it is and however many bytes it takes.
    assert_eq!(signature("xp", "sval"), signature("/p", "sval"));
    assert_eq!(signature("\u{e9}p", "sval"), signature("/p", "sval"));
}

#[test]
fn signature_hashes_the_bytes_of_the_text() {
    assert_eq!(signature("/\u{e9}t\u{e9}", "s"), "94453e82d8aee2d5b8a76e549024182c");
}

#[test]
fn signature_has_thirty_two_hexadecimal_digits() {
    for (path, s) in [("/", ""), ("/p", "sval"), ("/a/long/path/to/a/file.mp3", "0123456789abcdef")] {
        let sign = signature(path, s);
        assert_eq!(sign.len(), 32);
        assert!(sign.chars().all(|c| matches!(c, '0'..='9' | 'a'..='f')));
    }
}

#[test]
fn link_has_the_length_of_its_parts() {
    let link = direct_link(&page("host.example", "/some/path", "token", "0123")).unwrap();
    assert_eq!(link.len(), 8 + 12 + 9 + 32 + 1 + 4 + 10);
    assert!(link.starts_with("https://host.example/get-mp3/"));
    assert!(link.ends_with("/0123/some/path"));
}

/// A signing page with a comment that fills it up to a length.
fn padded(len: usize) -> Vec<u8> {
    let head = "<i><host>h</host><path>/p</path><s>sval</s><ts>t</ts><!--";
    let tail = "--></i>";
    let mut text = String::from(head);
    text.push_str(&"x".repeat(len - head.len() - tail.len()));
    text.push_str(tail);
    assert_eq!(text.len(), len);
    text.into_bytes()
}

#[test]
fn page_is_read_up_to_the_longest_length() {
    assert_eq!(MAX_DOCUMENT_LEN, 1024);
    let link = "https://h/get-mp3/ec18c22213b779cb262ef7d7077f6f78/t/p".to_string();
    assert_eq!(direct_link(&padded(MAX_DOCUMENT_LEN - 1)), Ok(link.clone()));
    assert_eq!(direct_link(&padded(MAX_DOCUMENT_LEN)), Ok(link));
}

#[test]
fn longer_page_is_a_parse_error() {
    assert_eq!(direct_link(&padded(MAX_DOCUMENT_LEN + 1)), Err(ApiError::Parse));
    assert_eq!(signing_descriptor(&padded(4 * MAX_DOCUMENT_LEN)).err(), Some(ApiError::Parse));
    assert_eq!(audio_url(Reply::Body(padded(MAX_DOCUMENT_LEN + 1))), Err(ApiError::Parse));
}

#[test]
fn plain_documents_are_told_apart() {
    assert!(is_plain_document(b""));
    assert!(is_plain_document(b"<i><host>h</host></i>"));
    assert!(is_plain_document(b"<?xml version=\"1.0\" encoding=\"utf-8\"?><i/>"));
    assert!(is_plain_document(b"<!-- c --><i><![CDATA[<!DOCTYP]]></i>"));
    assert!(is_plain_document(b"<!DOCTYP"));
    assert!(is_plain_document(b"<!doctype a>"));
    assert!(is_plain_document(&vec![b' '; MAX_DOCUMENT_LEN]));
    assert!(!is_plain_document(&vec![b' '; MAX_DOCUMENT_LEN + 1]));
    assert!(!is_plain_document(b"\0"));
    assert!(!is_plain_document(b"<i>\0</i>"));
    assert!(!is_plain_document(b"<i/>\0"));
    assert!(!is_plain_document(b"<!DOCTYPE"));
    assert!(!is_plain_document(b"<!DOCTYPE i><i/>"));
    assert!(!is_plain_document(b"<?xml version=\"1.0\"?>\n<!DOCTYPE i [ ]><i/>"));
    assert!(!is_plain_document(b"<i><![CDATA[<!DOCTYPE]]></i>"));
    assert!(!is_plain_document(b"<i/><!DOCTYPE"));
}

#[test]
fn page_with_a_document_type_is_a_parse_error() {
    let fields = "<i><host>h</host><path>/p</path><s>sval</s><ts>t</ts></i>";
    assert!(direct_link(fields.as_bytes()).is_ok());
    let typed = format!("<!DOCTYPE i>{}", fields);
    assert_eq!(direct_link(typed.as_bytes()), Err(ApiError::Parse));
    let declared = format!("<!DOCTYPE i [<!ENTITY e \"x\">]>{}", fields);
    assert_eq!(signing_descriptor(declared.as_bytes()).err(), Some(ApiError::Parse));
    assert_eq!(audio_url(Reply::Body(declared.into_bytes())), Err(ApiError::Parse));
}

#[test]
fn entities_that_stand_for_markup_are_never_read() {
    // Each naming of the entity would open 165 elements, one inside the other.
    let page = format!(
        "<!DOCTYPE a[<!ENTITY e \"{}\">]><a>{}",
        "<a>".repeat(165),
        "&e;".repeat(166)
    );
    assert_eq!(page.len(), MAX_DOCUMENT_LEN);
    assert!(!is_plain_document(page.as_bytes()));
    assert_eq!(signing_descriptor(page.as_bytes()).err(), Some(ApiError::Parse));
    assert_eq!(direct_link(page.as_bytes()), Err(ApiError::Parse));
}

#[test]
fn page_in_two_byte_characters_is_a_parse_error() {
    let text = "<i><host>h</host><path>/p</path><s>sval</s><ts>t</ts></i>";
    for big_endian in [true, false] {
        let mut page: Vec<u8> = if big_endian { vec![0xfe, 0xff] } else { vec![0xff, 0xfe] };
        for unit in text.encode_utf16() {
            let bytes = if big_endian { unit.to_be_bytes() } else { unit.to_le_bytes() };
            page.extend_from_slice(&bytes);
        }
        assert!(!is_plain_document(&page));
        assert_eq!(direct_link(&page), Err(ApiError::Parse));
    }
}

#[test]
fn predefined_entities_are_text() {
    let page = b"<i><host>a&lt;b&#60;c&amp;</host><path>/p</path><s>s</s><ts>t</ts></i>";
    assert_eq!(signing_descriptor(page).unwrap().host, "a<b<c&");
    let page = b"<i><host>&e;</host><path>/p</path><s>s</s><ts>t</ts></i>";
    assert_eq!(signing_descriptor(page).err(), Some(ApiError::Parse));
}

#[test]
fn deepest_nesting_that_fits_is_read_to_the_end() {
    // A plain document opens an element with three bytes at the least, so none
    // of the longest length nests deeper than this one.
    let mut open = "<a>".repeat(MAX_DOCUMENT_LEN / 3);
    open.push(' ');
    assert_eq!(open.len(), MAX_DOCUMENT_LEN);
    assert_eq!(signing_descriptor(open.as_bytes()).err(), Some(ApiError::Parse));
    let levels = MAX_DOCUMENT_LEN / 7;
    let closed = format!("{}{}", "<a>".repeat(levels), "</a>".repeat(levels));
    assert!(closed.len() <= MAX_DOCUMENT_LEN);
    assert_eq!(signing_descriptor(closed.as_bytes()).err(), Some(ApiError::Resolution));
    // Far deeper nesting is turned away before it is read.
    let deep = "<a>".repeat(100_000);
    assert_eq!(signing_descriptor(deep.as_bytes()).err(), Some(ApiError::Parse));
}

#[test]
fn link_is_put_together_in_order() {
    assert_eq!(build_link("h", "00ff", "t", "/p"), "https://h/get-mp3/00ff/t/p");
    assert_eq!(build_link("", "", "", ""), "https:///get-mp3//");
}

#[test]
fn descriptor_is_read_from_a_signing_page() {
    let bytes = page("s1.example.net", "/music/1/2.mp3", "abcdef", "0005a1b2");
    let descriptor = signing_descriptor(&bytes).unwrap();
    assert_eq!(descriptor.host, "s1.example.net");
    assert_eq!(descriptor.path, "/music/1/2.mp3");
    assert_eq!(descriptor.s, "abcdef");
    assert_eq!(descriptor.ts, "0005a1b2");
}

#[test]
fn direct_link_from_a_signing_page() {
    let bytes = page("h", "/p", "sval", "t");
    assert_eq!(
        direct_link(&bytes),
        Ok("https://h/get-mp3/ec18c22213b779cb262ef7d7077f6f78/t/p".to_string())
    );
}

#[test]
fn first_child_of_a_name_counts() {
    let bytes = b"<i><host>a</host><host>b</host><path>/p</path><s>s</s><ts>t</ts></i>";
    let descriptor = signing_descriptor(bytes).unwrap();
    assert_eq!(descriptor.host, "a");
    // A first child without text hides a second one with text.
    let bytes = b"<i><host/><host>b</host><path>/p</path><s>s</s><ts>t</ts></i>";
    assert_eq!(signing_descriptor(bytes).err(), Some(ApiError::Resolution));
}

#[test]
fn text_and_character_data_are_joined() {
    let bytes = b"<i><host>a<![CDATA[b]]>c</host><path>/p</path><s>s</s><ts>t</ts></i>";
    assert_eq!(signing_descriptor(bytes).unwrap().host, "abc");
}

#[test]
fn grandchildren_are_not_fields() {
    let bytes = b"<i><w><host>h</host></w><path>/p</path><s>s</s><ts>t</ts></i>";
    assert_eq!(signing_descriptor(bytes).err(), Some(ApiError::Resolution));
}

#[test]
fn page_that_is_no_document_is_a_parse_error() {
    assert_eq!(signing_descriptor(b"").err(), Some(ApiError::Parse));
    assert_eq!(signing_descriptor(b"not xml").err(), Some(ApiError::Parse));
    assert_eq!(signing_descriptor(b"<a><b></a>").err(), Some(ApiError::Parse));
    assert_eq!(direct_link(b"<!-- nothing -->"), Err(ApiError::Parse));
}

#[test]
fn page_without_a_field_is_a_resolution_error() {
    for missing in ["host", "path", "s", "ts"] {
        let mut text = String::from("<i>");
        for field in ["host", "path", "s", "ts"] {
            if field != missing {
                text.push_str(&format!("<{0}>/x</{0}>", field));
            }
        }
        text.push_str("</i>");
        assert_eq!(signing_descriptor(text.as_bytes()).err(), Some(ApiError::Resolution));
        assert_eq!(direct_link(text.as_bytes()), Err(ApiError::Resolution));
    }
    assert_eq!(signing_descriptor(b"<i/>").err(), Some(ApiError::Resolution));
}

#[test]
fn page_with_an_empty_path_is_a_resolution_error() {
    let bytes = b"<i><host>h</host><path></path><s>s</s><ts>t</ts></i>";
    assert_eq!(signing_descriptor(bytes).err(), Some(ApiError::Resolution));
    let bytes = b"<i><host>h</host><path><![CDATA[]]></path><s>s</s><ts>t</ts></i>";
    assert_eq!(signing_descriptor(bytes).err(), Some(ApiError::Resolution));
}

fn info(url: &str, bitrate: u32) -> DownloadInfo {
    DownloadInfo { codec: Codec::MP3, url: url.to_string(), bitrate }
}

#[test]
fn first_way_to_download_is_taken() {
    let reply = Reply::Body(vec![info("https://a/low", 128), info("https://a/high", 320)]);
    let chosen = select_download(reply).unwrap();
    assert_eq!(chosen.url, "https://a/low");
    assert_eq!(chosen.bitrate, 128);
    let reply = Reply::Body(vec![info("https://a/low", 128), info("https://a/high", 320)]);
    assert_eq!(signing_page_url(reply), Ok("https://a/low".to_string()));
}

#[test]
fn reply_that_names_no_download_is_a_parse_error() {
    assert_eq!(signing_page_url(Reply::Body(vec![])), Err(ApiError::Parse));
    assert_eq!(signing_page_url(Reply::Malformed), Err(ApiError::Parse));
    assert_eq!(signing_page_url(Reply::Rejected), Err(ApiError::Auth));
    assert_eq!(
        signing_page_url(Reply::Failed("timeout".to_string())),
        Err(ApiError::Transport("timeout".to_string()))
    );
}

#[test]
fn audio_url_is_the_direct_link_of_the_page() {
    let reply = Reply::Body(page("h", "/p", "sval", "t"));
    assert_eq!(
        audio_url(reply),
        Ok("https://h/get-mp3/ec18c22213b779cb262ef7d7077f6f78/t/p".to_string())
    );
    assert_eq!(audio_url(Reply::Body(b"<i/>".to_vec())), Err(ApiError::Resolution));
    assert_eq!(audio_url(Reply::Body(b"<".to_vec())), Err(ApiError::Parse));
    assert_eq!(
        audio_url(Reply::Failed("reset".to_string())),
        Err(ApiError::Transport("reset".to_string()))
    );
}

#[test]
fn audio_is_wrapped_with_its_track_and_time() {
    let now = std::time::Instant::now();
    let blob = download_data(42, Reply::Body(vec![1, 2, 3]), now).unwrap();
    assert_eq!(blob.id, 42);
    assert_eq!(blob.loaded, now);
    assert_eq!(blob.data, vec![1, 2, 3]);
    let failed = download_data(42, Reply::Failed("gone".to_string()), now);
    assert_eq!(failed.err(), Some(ApiError::Transport("gone".to_string())));
    assert_eq!(download_data(42, Reply::Malformed, now).err(), Some(ApiError::Parse));
}
