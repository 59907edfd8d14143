use stemmer::decimal::dec_string;
use stemmer::media::content_type_of;
use stemmer::media::media_encoded_part;
use stemmer::media::media_response;
use stemmer::media::mime_label;
use stemmer::media::not_found_response;
use stemmer::media::resolve_media_path;
use stemmer::media::Mime;
use stemmer::media::RequestMethod;
use stemmer::paths::derive_project_label;
use stemmer::paths::join_path;
use stemmer::paths::resolve_output_paths;
use stemmer::progress::download_event;
use stemmer::progress::translate_all;
use stemmer::progress::translate_progress;
use stemmer::progress::PipelineProgress;
use stemmer::progress::ProgressEvent;

fn b(s: &str) -> Vec<u8> {
    s.as_bytes().to_vec()
}

#[test]
fn resolve_song_wav() {
    let r = resolve_output_paths(b"/home/u/song.wav", b"/home/u/out");
    assert_eq!(r.base_dir, b("/home/u/out"));
    assert_eq!(r.project_subdir, b("song"));
    assert_eq!(r.full_path, b("/home/u/out/song"));
}

#[test]
fn resolved_path_is_strict_descendant() {
    let r = resolve_output_paths(b"/tmp/x/mix.flac", b"/tmp/dest");
    assert!(r.full_path.len() > r.base_dir.len());
    assert_eq!(&r.full_path[..r.base_dir.len()], &r.base_dir[..]);
    assert_eq!(r.full_path[r.base_dir.len()], b'/');
}

#[test]
fn resolving_twice_gives_the_same_location() {
    let first = resolve_output_paths(b"/home/u/song.wav", b"/home/u/out");
    let second = resolve_output_paths(b"/home/u/song.wav", b"/home/u/out");
    assert_eq!(first.full_path, second.full_path);
    assert_eq!(first.project_subdir, second.project_subdir);
}

#[test]
fn resolve_base_with_trailing_separator() {
    let r = resolve_output_paths(b"/home/u/song.wav", b"/home/u/out/");
    assert_eq!(r.full_path, b("/home/u/out/song"));
}

#[test]
fn fallback_label_for_root() {
    assert_eq!(derive_project_label(b"/"), b("output"));
}

#[test]
fn fallback_label_for_empty() {
    assert_eq!(derive_project_label(b""), b("output"));
}

#[test]
fn fallback_label_for_parent_component() {
    assert_eq!(derive_project_label(b"a/.."), b("output"));
    assert_eq!(derive_project_label(b"../."), b("output"));
}

#[test]
fn trailing_current_directory_components_are_ignored() {
    assert_eq!(derive_project_label(b"a/."), b("a"));
    assert_eq!(derive_project_label(b"foo.txt/."), b("foo"));
    assert_eq!(derive_project_label(b"a/./."), b("a"));
    assert_eq!(derive_project_label(b"."), b("output"));
    assert_eq!(derive_project_label(b"/."), b("output"));
}

#[test]
fn stem_of_hidden_file_is_whole_name() {
    assert_eq!(derive_project_label(b"/a/.bashrc"), b(".bashrc"));
}

#[test]
fn stem_cuts_only_last_extension() {
    assert_eq!(derive_project_label(b"/a/archive.tar.gz"), b("archive.tar"));
}

#[test]
fn stem_of_trailing_dot() {
    assert_eq!(derive_project_label(b"song."), b("song"));
}

#[test]
fn stem_ignores_trailing_separators() {
    assert_eq!(derive_project_label(b"a/b/"), b("b"));
}

#[test]
fn join_inserts_separator_once() {
    assert_eq!(join_path(b"a", b"c"), b("a/c"));
    assert_eq!(join_path(b"a/", b"c"), b("a/c"));
    assert_eq!(join_path(b"", b"c"), b("c"));
}

#[test]
fn mime_table_is_exact() {
    assert_eq!(content_type_of(b"x.mp3"), Mime::Mpeg);
    assert_eq!(content_type_of(b"x.wav"), Mime::Wav);
    assert_eq!(content_type_of(b"x.m4a"), Mime::Mp4);
    assert_eq!(content_type_of(b"x.flac"), Mime::Flac);
    assert_eq!(content_type_of(b"x.ogg"), Mime::Ogg);
    assert_eq!(content_type_of(b"x.aac"), Mime::Aac);
    assert_eq!(content_type_of(b"x.txt"), Mime::OctetStream);
    assert_eq!(content_type_of(b"noextension"), Mime::OctetStream);
    assert_eq!(mime_label(Mime::Mpeg), "audio/mpeg");
    assert_eq!(mime_label(Mime::Wav), "audio/wav");
    assert_eq!(mime_label(Mime::Mp4), "audio/mp4");
    assert_eq!(mime_label(Mime::Flac), "audio/flac");
    assert_eq!(mime_label(Mime::Ogg), "audio/ogg");
    assert_eq!(mime_label(Mime::Aac), "audio/aac");
    assert_eq!(mime_label(Mime::OctetStream), "application/octet-stream");
}

#[test]
fn decimal_rendering() {
    assert_eq!(dec_string(0), "0");
    assert_eq!(dec_string(7), "7");
    assert_eq!(dec_string(42), "42");
    assert_eq!(dec_string(31536000), "31536000");
}

#[test]
fn media_uri_decodes_to_path() {
    let p = resolve_media_path(b"audio://localhost/%2Fhome%2Fu%2Fout%2Fsong%2Fvocals.wav", false);
    assert_eq!(p, b("/home/u/out/song/vocals.wav"));
    assert_eq!(content_type_of(&p), Mime::Wav);
}

#[test]
fn media_uri_plain_path() {
    // After the canonical prefix everything is the (here unencoded) path.
    let p = resolve_media_path(b"audio://localhost/home/u/a.mp3", false);
    assert_eq!(p, b("home/u/a.mp3"));
    // Without the trailing separator the general authority form applies.
    let q = resolve_media_path(b"audio://localhost", false);
    assert_eq!(q, b(""));
}

#[test]
fn media_uri_decode_failure_falls_back_to_raw() {
    // %FF decodes to a byte sequence that is not valid UTF-8.
    let p = resolve_media_path(b"audio://localhost/%FF", false);
    assert_eq!(p, b("%FF"));
}

#[test]
fn media_uri_other_scheme() {
    assert_eq!(media_encoded_part(b"files://localhost/a/b"), b("/a/b"));
    assert_eq!(media_encoded_part(b"files://other/a"), b("other/a"));
    assert_eq!(media_encoded_part(b"no-separator"), b(""));
}

#[test]
fn media_uri_strips_one_leading_separator() {
    let p = resolve_media_path(b"audio://localhost/%2FC%3A%2Fx.wav", true);
    assert_eq!(p, b("C:/x.wav"));
    let q = resolve_media_path(b"audio://localhost//a", true);
    assert_eq!(q, b("a"));
    let r = resolve_media_path(b"audio://localhost/%2FC%3A%2Fx.wav", false);
    assert_eq!(r, b("/C:/x.wav"));
}

#[test]
fn not_found_has_empty_body_and_no_headers() {
    let r = media_response(RequestMethod::Get, b"/missing.wav", None);
    assert_eq!(r.status, 404);
    assert!(r.body.is_empty());
    assert!(r.headers.is_empty());
    assert!(!r.headers.iter().any(|(n, _)| n == "Content-Type"));
    let n = not_found_response();
    assert_eq!(n.status, 404);
}

#[test]
fn success_headers_are_exact() {
    let body = vec![1u8, 2, 3];
    let r = media_response(RequestMethod::Get, b"/out/song/vocals.wav", Some(body.clone()));
    assert_eq!(r.status, 200);
    assert_eq!(r.body, body);
    let hs: Vec<(String, String)> = r.headers;
    assert_eq!(hs.len(), 8);
    assert_eq!(hs[0], ("Access-Control-Allow-Origin".to_string(), "*".to_string()));
    assert_eq!(
        hs[1],
        ("Access-Control-Allow-Methods".to_string(), "GET, OPTIONS, HEAD".to_string())
    );
    assert_eq!(hs[2], ("Access-Control-Allow-Headers".to_string(), "*".to_string()));
    assert_eq!(
        hs[3],
        (
            "Access-Control-Expose-Headers".to_string(),
            "Content-Length, Content-Type, Accept-Ranges".to_string()
        )
    );
    assert_eq!(hs[4], ("Content-Type".to_string(), "audio/wav".to_string()));
    assert_eq!(hs[5], ("Content-Length".to_string(), "3".to_string()));
    assert_eq!(hs[6], ("Accept-Ranges".to_string(), "bytes".to_string()));
    assert_eq!(hs[7], ("Cache-Control".to_string(), "public, max-age=31536000".to_string()));
}

#[test]
fn head_and_options_share_headers_with_empty_body() {
    let body = vec![9u8, 9, 9, 9];
    let head = media_response(RequestMethod::Head, b"/a.mp3", Some(body.clone()));
    assert_eq!(head.status, 200);
    assert!(head.body.is_empty());
    assert_eq!(head.headers[4], ("Content-Type".to_string(), "audio/mpeg".to_string()));
    assert_eq!(head.headers[5], ("Content-Length".to_string(), "4".to_string()));
    let options = media_response(RequestMethod::Options, b"/a.mp3", Some(body));
    assert_eq!(options.status, 200);
    assert!(options.body.is_empty());
    assert_eq!(options.headers.len(), 8);
    assert_eq!(options.headers[0], ("Access-Control-Allow-Origin".to_string(), "*".to_string()));
    let missing = media_response(RequestMethod::Head, b"/a.mp3", None);
    assert_eq!(missing.status, 404);
    assert!(missing.headers.is_empty());
}

#[test]
fn content_length_matches_byte_count() {
    let body = vec![0u8; 12345];
    let r = media_response(RequestMethod::Get, b"/a.ogg", Some(body));
    assert_eq!(r.headers[5].1, "12345");
    assert_eq!(r.headers[4].1, "audio/ogg");
}

#[test]
fn translate_preserves_stage_and_writing() {
    let out = b("/home/u/out/song");
    let e = translate_progress(
        PipelineProgress::Stage { label: "engine_preload".to_string() },
        &out,
    );
    match e {
        ProgressEvent::Stage { stage } => assert_eq!(stage, "engine_preload"),
        _ => panic!("stage must map to stage"),
    }
    let bits = 42.5f32.to_bits();
    let e = translate_progress(
        PipelineProgress::Writing { stem: "vocals".to_string(), percent_bits: bits },
        &out,
    );
    match e {
        ProgressEvent::Writing { stem, percent_bits } => {
            assert_eq!(stem, "vocals");
            assert_eq!(f32::from_bits(percent_bits), 42.5f32);
        }
        _ => panic!("writing must map to writing"),
    }
}

#[test]
fn finished_event_carries_resolved_path() {
    let r = resolve_output_paths(b"/home/u/song.wav", b"/home/u/out");
    let e = translate_progress(PipelineProgress::Finished, &r.full_path);
    match e {
        ProgressEvent::Finished { output_path } => {
            assert_eq!(output_path, b("/home/u/out/song"));
            assert_ne!(output_path, b("/home/u/out"));
        }
        _ => panic!("finished must map to finished"),
    }
}

#[test]
fn unknown_variant_becomes_noop() {
    let out = b("/x");
    match translate_progress(PipelineProgress::Other, &out) {
        ProgressEvent::Noop => {}
        _ => panic!("unrecognized variants must map to noop"),
    }
}

#[test]
fn download_event_preserves_counts() {
    match download_event(512, 2048) {
        ProgressEvent::Download { downloaded, total } => {
            assert_eq!(downloaded, 512);
            assert_eq!(total, 2048);
        }
        _ => panic!("download must map to download"),
    }
}

#[test]
fn translate_all_preserves_order() {
    let out = b("/o/s");
    let events = translate_all(
        vec![
            PipelineProgress::Stage { label: "resolve_model".to_string() },
            PipelineProgress::Other,
            PipelineProgress::Writing { stem: "drums".to_string(), percent_bits: 0 },
            PipelineProgress::Finished,
        ],
        &out,
    );
    assert_eq!(events.len(), 4);
    assert!(matches!(&events[0], ProgressEvent::Stage { stage } if stage == "resolve_model"));
    assert!(matches!(events[1], ProgressEvent::Noop));
    assert!(matches!(&events[2], ProgressEvent::Writing { stem, .. } if stem == "drums"));
    assert!(matches!(&events[3], ProgressEvent::Finished { output_path } if *output_path == b("/o/s")));
}
