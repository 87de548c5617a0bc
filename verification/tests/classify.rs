use gal::classify::{classify, content_type, UNKNOWN_MEDIA_TYPE};
use gal::{ClassificationError, Probe};

fn header(bytes: &[u8]) -> Probe {
    Probe::ContentType(bytes.to_vec())
}

#[test]
fn unknown_media_type_is_unknown() {
    assert_eq!(UNKNOWN_MEDIA_TYPE, "unknown");
}

#[test]
fn declared_content_type_is_the_classification() {
    assert_eq!(classify(&header(b"image/png")), "image/png");
    assert_eq!(classify(&header(b"video/mp4")), "video/mp4");
}

#[test]
fn content_type_keeps_parameters_and_spaces() {
    assert_eq!(classify(&header(b"text/html; charset=utf-8")), "text/html; charset=utf-8");
}

#[test]
fn tab_counts_as_text() {
    assert_eq!(content_type(&header(b"a\tb")), Ok("a\tb".to_string()));
}

#[test]
fn empty_header_is_an_empty_classification() {
    assert_eq!(content_type(&header(b"")), Ok(String::new()));
    assert_eq!(classify(&header(b"")), "");
}

#[test]
fn every_text_byte_is_kept_as_its_character() {
    let mut raw: Vec<u8> = (32u8..127).collect();
    raw.push(9);
    let expected: String = raw.iter().map(|b| *b as char).collect();
    assert_eq!(content_type(&Probe::ContentType(raw)), Ok(expected));
}

#[test]
fn byte_beyond_ascii_is_malformed() {
    assert_eq!(
        content_type(&header(b"image/\xffpng")),
        Err(ClassificationError::MalformedContentType)
    );
    assert_eq!(classify(&header(b"image/\xffpng")), "unknown");
    assert_eq!(classify(&header(&[0x80])), "unknown");
}

#[test]
fn control_bytes_are_malformed() {
    assert_eq!(content_type(&header(b"a\nb")), Err(ClassificationError::MalformedContentType));
    assert_eq!(content_type(&header(&[0x7f])), Err(ClassificationError::MalformedContentType));
    assert_eq!(content_type(&header(&[0])), Err(ClassificationError::MalformedContentType));
    assert_eq!(content_type(&header(&[31])), Err(ClassificationError::MalformedContentType));
}

#[test]
fn each_text_boundary_is_honoured() {
    assert_eq!(content_type(&header(&[32])), Ok(" ".to_string()));
    assert_eq!(content_type(&header(&[126])), Ok("~".to_string()));
    assert_eq!(content_type(&header(&[8])), Err(ClassificationError::MalformedContentType));
    assert_eq!(content_type(&header(&[10])), Err(ClassificationError::MalformedContentType));
}

#[test]
fn undeclared_content_type_is_unknown() {
    assert_eq!(content_type(&Probe::Undeclared), Err(ClassificationError::MissingContentType));
    assert_eq!(classify(&Probe::Undeclared), "unknown");
}

#[test]
fn unreachable_resource_is_unknown() {
    assert_eq!(content_type(&Probe::Unreachable), Err(ClassificationError::Unreachable));
    assert_eq!(classify(&Probe::Unreachable), "unknown");
}

#[test]
fn probe_that_timed_out_is_unknown() {
    assert_eq!(content_type(&Probe::TimedOut), Err(ClassificationError::TimedOut));
    assert_eq!(classify(&Probe::TimedOut), "unknown");
}
