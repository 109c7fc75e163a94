use audio_visualizer::fault::{check_response, Fault};
use audio_visualizer::source::{begins_with, names_scheme, resolve_source_url};
use audio_visualizer::stream::{StreamError, StreamEvent};

#[test]
fn path_without_scheme_goes_to_the_local_endpoint() {
    assert_eq!(resolve_source_url("/audio/song.mp3"), "http://127.0.0.1:3000/audio/song.mp3");
    assert_eq!(resolve_source_url(""), "http://127.0.0.1:3000");
    assert_eq!(resolve_source_url("htt"), "http://127.0.0.1:3000htt");
    assert_eq!(resolve_source_url("/http://a"), "http://127.0.0.1:3000/http://a");
}

#[test]
fn letters_of_a_scheme_alone_are_no_scheme() {
    assert_eq!(resolve_source_url("httpdocs/a.mp3"), "http://127.0.0.1:3000httpdocs/a.mp3");
    assert_eq!(resolve_source_url("http"), "http://127.0.0.1:3000http");
    assert_eq!(resolve_source_url("https"), "http://127.0.0.1:3000https");
    assert_eq!(resolve_source_url("http:/a"), "http://127.0.0.1:3000http:/a");
    assert_eq!(resolve_source_url("https:/a"), "http://127.0.0.1:3000https:/a");
    assert_eq!(resolve_source_url("httpx://a"), "http://127.0.0.1:3000httpx://a");
}

#[test]
fn path_with_scheme_is_kept() {
    assert_eq!(resolve_source_url("http://example.org/a.mp3"), "http://example.org/a.mp3");
    assert_eq!(resolve_source_url("https://example.org:8443/a"), "https://example.org:8443/a");
    assert_eq!(resolve_source_url("http://"), "http://");
    assert_eq!(resolve_source_url("https://"), "https://");
}

#[test]
fn path_outside_ascii_is_handled_by_character() {
    assert_eq!(resolve_source_url("/m\u{fc}sic/\u{266b}.mp3"), "http://127.0.0.1:3000/m\u{fc}sic/\u{266b}.mp3");
    assert_eq!(resolve_source_url("\u{fc}ttp://a"), "http://127.0.0.1:3000\u{fc}ttp://a");
    assert_eq!(resolve_source_url("http://h/\u{266b}"), "http://h/\u{266b}");
    assert!(!names_scheme("\u{266b}\u{266b}\u{266b}\u{266b}\u{266b}\u{266b}\u{266b}"));
    assert!(!names_scheme("http:/\u{fc}"));
}

#[test]
fn scheme_test_reads_the_whole_scheme() {
    assert!(names_scheme("http://"));
    assert!(names_scheme("https://x"));
    assert!(names_scheme("http://x"));
    assert!(!names_scheme("http"));
    assert!(!names_scheme("https:/"));
    assert!(!names_scheme("xhttp://"));
    assert!(!names_scheme("htpt://"));
    assert!(!names_scheme(""));
}

#[test]
fn prefix_test_compares_character_by_character() {
    assert!(begins_with("abc", ""));
    assert!(begins_with("", ""));
    assert!(begins_with("abc", "a"));
    assert!(begins_with("abc", "abc"));
    assert!(!begins_with("abc", "abcd"));
    assert!(!begins_with("abc", "b"));
    assert!(!begins_with("", "a"));
    assert!(begins_with("\u{266b}\u{fc}x", "\u{266b}\u{fc}"));
    assert!(!begins_with("\u{266b}x", "\u{266b}\u{fc}"));
}

#[test]
fn every_fault_has_its_kind() {
    assert_eq!(Fault::NoWindow.kind(), StreamError::CapabilityUnavailable);
    assert_eq!(Fault::NoDocument.kind(), StreamError::CapabilityUnavailable);
    assert_eq!(Fault::NoBody.kind(), StreamError::CapabilityUnavailable);
    assert_eq!(Fault::NoContext.kind(), StreamError::CapabilityUnavailable);
    assert_eq!(Fault::NoPlayback.kind(), StreamError::CapabilityUnavailable);
    assert_eq!(Fault::NoBuffer.kind(), StreamError::CapabilityUnavailable);
    assert_eq!(Fault::ReadFailed.kind(), StreamError::NetworkError);
    assert_eq!(Fault::EndRejected.kind(), StreamError::BufferError);
    assert_eq!(Fault::FetchFailed.kind(), StreamError::NetworkError);
    assert_eq!(Fault::NoResponseBody.kind(), StreamError::NetworkError);
    assert_eq!(Fault::AppendRejected.kind(), StreamError::BufferError);
    assert_eq!(Fault::AckLost.kind(), StreamError::SurfaceClosed);
}

#[test]
fn every_fault_has_its_message() {
    assert_eq!(Fault::NoWindow.message(), "No window found");
    assert_eq!(Fault::NoDocument.message(), "No document found");
    assert_eq!(Fault::NoBody.message(), "No body found");
    assert_eq!(Fault::NoContext.message(), "Failed to get 2D context");
    assert_eq!(Fault::NoPlayback.message(), "Failed to start audio playback");
    assert_eq!(Fault::NoBuffer.message(), "Failed to create the source buffer");
    assert_eq!(Fault::ReadFailed.message(), "Failed to read the audio stream");
    assert_eq!(Fault::EndRejected.message(), "Failed to end the stream");
    assert_eq!(Fault::FetchFailed.message(), "Failed to fetch audio file");
    assert_eq!(Fault::NoResponseBody.message(), "No response body");
    assert_eq!(Fault::AppendRejected.message(), "Failed to append to the buffer");
    assert_eq!(Fault::AckLost.message(), "Failed to receive updateend event");
}

#[test]
fn response_must_succeed_and_carry_a_body() {
    assert_eq!(check_response(true, true), Ok(()));
    assert_eq!(check_response(false, true), Err(Fault::FetchFailed));
    assert_eq!(check_response(false, false), Err(Fault::FetchFailed));
    assert_eq!(check_response(true, false), Err(Fault::NoResponseBody));
}

#[test]
fn every_fault_is_reported_as_a_failure_of_its_kind() {
    let faults = [
        Fault::NoWindow,
        Fault::NoDocument,
        Fault::NoBody,
        Fault::NoContext,
        Fault::NoPlayback,
        Fault::NoBuffer,
        Fault::FetchFailed,
        Fault::NoResponseBody,
        Fault::ReadFailed,
        Fault::AppendRejected,
        Fault::EndRejected,
        Fault::AckLost,
    ];
    for fault in faults {
        assert_eq!(fault.event(), StreamEvent::Failed(fault.kind()));
    }
    assert_eq!(Fault::NoBuffer.event(), StreamEvent::Failed(StreamError::CapabilityUnavailable));
    assert_eq!(Fault::ReadFailed.event(), StreamEvent::Failed(StreamError::NetworkError));
    assert_eq!(Fault::EndRejected.event(), StreamEvent::Failed(StreamError::BufferError));
    assert_eq!(Fault::AckLost.event(), StreamEvent::Failed(StreamError::SurfaceClosed));
}
