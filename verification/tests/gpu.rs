use cuda_provisioner::gpu::{check_for_gpu, listing_names_gpu, VENDOR_MARKER};
use cuda_provisioner::text::contains;

#[test]
fn marker_is_the_vendor_name() {
    assert_eq!(VENDOR_MARKER, "NVIDIA");
}

#[test]
fn listing_with_marker_names_gpu() {
    assert!(listing_names_gpu(
        "01:00.0 VGA compatible controller: NVIDIA Corporation GA104 [GeForce RTX 3070]"
    ));
}

#[test]
fn listing_without_marker_names_no_gpu() {
    assert!(!listing_names_gpu(
        "00:02.0 VGA compatible controller: Intel Corporation UHD Graphics 630"
    ));
}

#[test]
fn marker_alone_names_gpu() {
    assert!(listing_names_gpu("NVIDIA"));
}

#[test]
fn marker_at_start_and_at_end_names_gpu() {
    assert!(listing_names_gpu("NVIDIA GeForce"));
    assert!(listing_names_gpu("Chipset Model: NVIDIA"));
}

#[test]
fn lower_case_marker_names_no_gpu() {
    assert!(!listing_names_gpu("nvidia"));
    assert!(!listing_names_gpu("01:00.0 VGA compatible controller: nvidia corporation"));
}

#[test]
fn mixed_case_marker_names_no_gpu() {
    assert!(!listing_names_gpu("Nvidia Corporation"));
    assert!(!listing_names_gpu("NVIDIa"));
    assert!(!listing_names_gpu("nVIDIA"));
}

#[test]
fn broken_marker_names_no_gpu() {
    assert!(!listing_names_gpu("NVIDI"));
    assert!(!listing_names_gpu("NVID IA"));
    assert!(!listing_names_gpu("N V I D I A"));
    assert!(!listing_names_gpu("NVIDINVIDI"));
}

#[test]
fn marker_after_false_start_names_gpu() {
    assert!(listing_names_gpu("NVNVIDIA"));
    assert!(listing_names_gpu("NVIDINVIDIA"));
}

#[test]
fn empty_listing_names_no_gpu() {
    assert!(!listing_names_gpu(""));
    assert!(!check_for_gpu(b""));
}

#[test]
fn marker_among_wide_characters_names_gpu() {
    assert!(listing_names_gpu("Grafikkarte \u{00e4}\u{4e2d}\u{1f600} NVIDIA \u{00fc}"));
    assert!(!listing_names_gpu("NVI\u{00e4}DIA"));
}

#[test]
fn captured_output_with_marker_names_gpu() {
    assert!(check_for_gpu(b"Name\r\nNVIDIA GeForce GTX 1080\r\n"));
}

#[test]
fn captured_output_without_marker_names_no_gpu() {
    assert!(!check_for_gpu(b"Name\r\nIntel(R) UHD Graphics\r\n"));
    assert!(!check_for_gpu(b"nvidia"));
}

#[test]
fn captured_output_is_decoded_lossily() {
    assert!(check_for_gpu(b"\xff\xfeNVIDIA\x80"));
    assert!(!check_for_gpu(b"NVI\xffDIA"));
    assert!(!check_for_gpu(b"\xff\xfe\x80"));
}

#[test]
fn contains_finds_text_anywhere() {
    assert!(contains("hello world", "hello"));
    assert!(contains("hello world", "o w"));
    assert!(contains("hello world", "world"));
    assert!(contains("hello world", "hello world"));
}

#[test]
fn contains_rejects_absent_text() {
    assert!(!contains("hello world", "worlds"));
    assert!(!contains("hello world", "Hello"));
    assert!(!contains("abc", "abcd"));
    assert!(!contains("", "a"));
}

#[test]
fn contains_finds_empty_text_everywhere() {
    assert!(contains("abc", ""));
    assert!(contains("", ""));
}

#[test]
fn contains_agrees_with_std() {
    let texts = ["", "a", "ab", "aab", "abab", "NVIDIA", "xNVIDIAx", "\u{00e4}b\u{4e2d}"];
    for haystack in texts {
        for needle in texts {
            assert_eq!(contains(haystack, needle), haystack.contains(needle));
        }
    }
}
