use bytes::Bytes;
use media_relay::catalog::MediaKind;
use media_relay::clock::{millis_of, now_millis};
use media_relay::download::{check_payload, Download, DownloadStep};
use media_relay::error::{FetchError, QueueError};
use media_relay::preload::{PreloadGuard, PreloadPipeline, PreloadStart, MAX_PRELOAD};
use media_relay::resolve::ResponseHead;
use media_relay::stream::{plan_proxy, relay_upstream, serve_buffer, serve_playing, names_stream, UpstreamResponse};

fn buffer(n: usize) -> Bytes {
    Bytes::from((0..n).map(|i| (i % 251) as u8).collect::<Vec<u8>>())
}

fn fetch(pipeline: &mut PreloadPipeline, id: &str, url: &str, n: usize) -> usize {
    match pipeline.begin_preload() {
        PreloadStart::Fetch(guard) => pipeline.finish_preload_as(guard, id.to_string(), Some((url.to_string(), buffer(n)))),
        _ => panic!("a fetch should have started"),
    }
}

#[test]
fn guard_is_granted_once() {
    let mut flag = false;
    let first = PreloadGuard::try_new(&mut flag);
    assert!(first.is_some());
    assert!(flag);
    assert!(PreloadGuard::try_new(&mut flag).is_none());
    assert!(flag);
    first.unwrap().release(&mut flag);
    assert!(!flag);
    assert!(PreloadGuard::try_new(&mut flag).is_some());
}

#[test]
fn second_request_while_preloading_returns_queue_length() {
    let mut pipeline = PreloadPipeline::new();
    assert_eq!(fetch(&mut pipeline, "a", "https://e/a", 3), 1);
    let guard = match pipeline.begin_preload() {
        PreloadStart::Fetch(guard) => guard,
        _ => panic!("a fetch should have started"),
    };
    assert!(pipeline.is_preloading());
    assert!(matches!(pipeline.begin_preload(), PreloadStart::Busy(1)));
    assert!(matches!(pipeline.begin_preload(), PreloadStart::Busy(1)));
    assert_eq!(pipeline.get_preload_count(), 1);
    assert_eq!(pipeline.finish_preload(guard, None), 1);
    assert!(!pipeline.is_preloading());
}

#[test]
fn queue_never_exceeds_capacity() {
    let mut pipeline = PreloadPipeline::new();
    assert_eq!(MAX_PRELOAD, 2);
    assert_eq!(fetch(&mut pipeline, "a", "https://e/a", 3), 1);
    assert_eq!(fetch(&mut pipeline, "b", "https://e/b", 4), 2);
    assert!(matches!(pipeline.begin_preload(), PreloadStart::Full(2)));
    assert!(!pipeline.is_preloading());
    assert_eq!(pipeline.get_preload_count(), 2);
}

#[test]
fn guard_made_for_a_flag_does_not_end_a_running_preload() {
    let mut pipeline = PreloadPipeline::new();
    assert_eq!(fetch(&mut pipeline, "a", "https://e/a", 3), 1);
    let guard = match pipeline.begin_preload() {
        PreloadStart::Fetch(guard) => guard,
        _ => panic!("a fetch should have started"),
    };
    let mut flag = false;
    let other = PreloadGuard::try_new(&mut flag).unwrap();
    assert_eq!(pipeline.finish_preload_as(other, "x".to_string(), Some(("https://e/x".to_string(), buffer(1)))), 1);
    assert!(pipeline.is_preloading());
    assert!(matches!(pipeline.begin_preload(), PreloadStart::Busy(1)));
    let mut flag = false;
    let other = PreloadGuard::try_new(&mut flag).unwrap();
    assert_eq!(pipeline.finish_preload(other, None), 1);
    assert!(pipeline.is_preloading());
    assert_eq!(pipeline.finish_preload_as(guard, "b".to_string(), Some(("https://e/b".to_string(), buffer(1)))), 2);
    assert!(!pipeline.is_preloading());
    assert_eq!(pipeline.pop_next_video(), Ok("stream:///video/a".to_string()));
    assert_eq!(pipeline.pop_next_video(), Ok("stream:///video/b".to_string()));
    assert_eq!(pipeline.pop_next_video(), Err(QueueError::NothingPreloaded));
}

#[test]
fn guard_with_another_number_does_not_end_a_running_preload() {
    let mut first = PreloadPipeline::new();
    let mut second = PreloadPipeline::new();
    fetch(&mut second, "a", "https://e/a", 1);
    let stale = match first.begin_preload() {
        PreloadStart::Fetch(guard) => guard,
        _ => panic!("a fetch should have started"),
    };
    let own = match second.begin_preload() {
        PreloadStart::Fetch(guard) => guard,
        _ => panic!("a fetch should have started"),
    };
    assert_eq!(second.finish_preload(stale, None), 1);
    assert!(second.is_preloading());
    assert_eq!(second.finish_preload(own, None), 1);
    assert!(!second.is_preloading());
}

#[test]
fn guard_does_nothing_when_no_preload_runs() {
    let mut pipeline = PreloadPipeline::new();
    let guard = match pipeline.begin_preload() {
        PreloadStart::Fetch(guard) => guard,
        _ => panic!("a fetch should have started"),
    };
    assert_eq!(pipeline.finish_preload(guard, None), 0);
    let mut flag = false;
    let other = PreloadGuard::try_new(&mut flag).unwrap();
    assert_eq!(pipeline.finish_preload_as(other, "x".to_string(), Some(("https://e/x".to_string(), buffer(1)))), 0);
    assert_eq!(pipeline.get_preload_count(), 0);
    assert!(!pipeline.is_preloading());
}

#[test]
fn failed_preload_leaves_queue_and_releases_flag() {
    let mut pipeline = PreloadPipeline::new();
    let guard = match pipeline.begin_preload() {
        PreloadStart::Fetch(guard) => guard,
        _ => panic!("a fetch should have started"),
    };
    assert_eq!(pipeline.finish_preload(guard, None), 0);
    assert!(!pipeline.is_preloading());
    assert!(matches!(pipeline.begin_preload(), PreloadStart::Fetch(_)));
}

#[test]
fn fresh_identifier_is_a_hyphenated_uuid() {
    let mut pipeline = PreloadPipeline::new();
    let guard = match pipeline.begin_preload() {
        PreloadStart::Fetch(guard) => guard,
        _ => panic!("a fetch should have started"),
    };
    assert_eq!(pipeline.finish_preload(guard, Some(("https://e/a".to_string(), buffer(2)))), 1);
    let uri = pipeline.pop_next_video().unwrap();
    let id = uri.strip_prefix("stream:///video/").unwrap();
    assert_eq!(id.len(), 36);
    for (i, c) in id.chars().enumerate() {
        if i == 8 || i == 13 || i == 18 || i == 23 {
            assert_eq!(c, '-');
        } else {
            assert!(c.is_ascii_digit() || ('a'..='f').contains(&c));
        }
    }
    assert_eq!(pipeline.playing().unwrap().id, id);
}

#[test]
fn pop_promotes_the_oldest_item() {
    let mut pipeline = PreloadPipeline::new();
    assert!(pipeline.playing().is_none());
    assert!(pipeline.current_video_url().is_none());
    fetch(&mut pipeline, "a", "https://e/a", 3);
    fetch(&mut pipeline, "b", "https://e/b", 4);
    assert_eq!(pipeline.pop_next_video(), Ok("stream:///video/a".to_string()));
    assert_eq!(pipeline.get_preload_count(), 1);
    assert_eq!(pipeline.playing().unwrap().id, "a");
    assert_eq!(pipeline.current_video_url().unwrap(), "https://e/a");
    assert_eq!(pipeline.pop_next_video(), Ok("stream:///video/b".to_string()));
    assert_eq!(pipeline.playing().unwrap().id, "b");
    assert_eq!(pipeline.playing().unwrap().data.len(), 4);
    assert_eq!(pipeline.pop_next_video(), Err(QueueError::NothingPreloaded));
    assert_eq!(pipeline.playing().unwrap().id, "b");
    assert_eq!(QueueError::NothingPreloaded.message(), "没有预加载的视频");
}

#[test]
fn clear_empties_queue_and_playing_item() {
    let mut pipeline = PreloadPipeline::new();
    fetch(&mut pipeline, "a", "https://e/a", 3);
    fetch(&mut pipeline, "b", "https://e/b", 4);
    pipeline.pop_next_video().unwrap();
    pipeline.clear_preload_queue();
    assert_eq!(pipeline.get_preload_count(), 0);
    assert!(pipeline.playing().is_none());
    assert_eq!(pipeline.current_video_url().unwrap(), "https://e/a");
    pipeline.set_current_video_url("https://e/z".to_string());
    assert_eq!(pipeline.current_video_url().unwrap(), "https://e/z");
}

#[test]
fn clock_gives_a_time_after_2020() {
    assert!(now_millis() > 1_577_836_800_000);
}

#[test]
fn elapsed_time_is_read_in_whole_milliseconds() {
    assert_eq!(millis_of(&Ok(std::time::Duration::from_millis(1500))), 1500);
    assert_eq!(millis_of(&Ok(std::time::Duration::new(2, 999_999_999))), 2999);
    assert_eq!(millis_of(&Ok(std::time::Duration::new(0, 0))), 0);
}

#[test]
fn time_before_the_epoch_reads_as_zero() {
    let before = std::time::UNIX_EPOCH.duration_since(std::time::SystemTime::now());
    assert!(before.is_err());
    assert_eq!(millis_of(&before), 0);
}

#[test]
fn open_range_returns_the_whole_buffer_as_partial_content() {
    let data = buffer(10);
    let r = serve_buffer(&data, Some("bytes=0-"));
    assert_eq!(r.status, 206);
    assert_eq!(r.body, data.to_vec());
    assert_eq!(r.content_length, Some(10));
    assert_eq!(r.content_range.as_deref(), Some("bytes 0-9/10"));
    assert_eq!(r.content_type.as_deref(), Some("video/mp4"));
    assert!(r.accept_ranges);
}

#[test]
fn inner_range_returns_its_bytes() {
    let data = buffer(10);
    let r = serve_buffer(&data, Some("bytes=2-5"));
    assert_eq!(r.status, 206);
    assert_eq!(r.body, vec![2u8, 3, 4, 5]);
    assert_eq!(r.content_length, Some(4));
    assert_eq!(r.content_range.as_deref(), Some("bytes 2-5/10"));
}

#[test]
fn malformed_ranges_fall_back_to_the_full_buffer() {
    let data = buffer(10);
    for header in ["0-5", "bytes=x-5", "bytes=6-5", "bytes=0-10", "bytes=", "bytes=-", "items=0-1", "bytes=0-abc", "bytes=0-1-2"] {
        let r = serve_buffer(&data, Some(header));
        assert_eq!(r.status, 200, "{}", header);
        assert_eq!(r.body, data.to_vec());
        assert_eq!(r.content_length, Some(10));
        assert_eq!(r.content_range, None);
        assert_eq!(r.content_type.as_deref(), Some("video/mp4"));
        assert!(r.accept_ranges);
    }
    let r = serve_buffer(&data, None);
    assert_eq!(r.status, 200);
    assert_eq!(r.body.len(), 10);
    let empty = buffer(0);
    let r = serve_buffer(&empty, Some("bytes=0-"));
    assert_eq!(r.status, 200);
    assert_eq!(r.content_length, Some(0));
}

#[test]
fn stream_is_named_by_path_or_by_host_and_path() {
    assert!(names_stream("/video/abc", "", "abc"));
    assert!(names_stream("/video/abc", "localhost", "abc"));
    assert!(names_stream("/abc", "video", "abc"));
    assert!(!names_stream("/abc", "audio", "abc"));
    assert!(!names_stream("/video/abcd", "", "abc"));
    assert!(!names_stream("/video/ab", "", "abc"));
    assert!(!names_stream("video/abc", "", "abc"));
    assert!(names_stream("/video/video/x", "video", "video/x"));
}

#[test]
fn only_the_playing_item_is_served_locally() {
    let mut pipeline = PreloadPipeline::new();
    fetch(&mut pipeline, "a", "https://e/a", 8);
    assert!(serve_playing(pipeline.playing(), "/video/a", "", None).is_none());
    pipeline.pop_next_video().unwrap();
    let r = serve_playing(pipeline.playing(), "/video/a", "", Some("bytes=1-2")).unwrap();
    assert_eq!(r.status, 206);
    assert_eq!(r.body, vec![1u8, 2]);
    let r = serve_playing(pipeline.playing(), "/a", "video", None).unwrap();
    assert_eq!(r.status, 200);
    assert_eq!(r.body.len(), 8);
    assert!(serve_playing(pipeline.playing(), "/video/b", "", None).is_none());
    assert!(serve_playing(pipeline.playing(), "/other", "", None).is_none());
}

#[test]
fn proxy_without_resolved_address_is_not_found() {
    match plan_proxy(None, Some("bytes=0-")) {
        Err(response) => {
            assert_eq!(response.status, 404);
            assert!(response.body.is_empty());
            assert_eq!(response.content_type, None);
            assert_eq!(response.content_length, None);
            assert!(!response.accept_ranges);
        }
        Ok(_) => panic!("nothing was resolved"),
    }
}

#[test]
fn proxy_passes_the_range_on_unchanged() {
    let url = "https://cdn.example/a.mp4".to_string();
    let plan = plan_proxy(Some(&url), Some("bytes=10-")).unwrap();
    assert_eq!(plan.url, url);
    assert_eq!(plan.referer, "https://api.tzjsy.cn/");
    assert_eq!(plan.range.as_deref(), Some("bytes=10-"));
    let plan = plan_proxy(Some(&url), None).unwrap();
    assert_eq!(plan.range, None);
}

#[test]
fn upstream_answer_is_relayed() {
    let r = relay_upstream(Some(UpstreamResponse {
        status: 206,
        content_type: Some("video/webm".to_string()),
        content_range: Some("bytes 10-19/100".to_string()),
        body: buffer(10),
    }));
    assert_eq!(r.status, 206);
    assert_eq!(r.content_type.as_deref(), Some("video/webm"));
    assert_eq!(r.content_range.as_deref(), Some("bytes 10-19/100"));
    assert_eq!(r.content_length, Some(10));
    assert!(r.accept_ranges);
    assert_eq!(r.body, buffer(10).to_vec());
    let r = relay_upstream(Some(UpstreamResponse { status: 200, content_type: None, content_range: None, body: buffer(1) }));
    assert_eq!(r.content_type.as_deref(), Some("video/mp4"));
    assert_eq!(r.content_range, None);
    let r = relay_upstream(None);
    assert_eq!(r.status, 500);
    assert!(r.body.is_empty());
}

fn head(status: u16, url: &str, location: Option<&str>) -> ResponseHead {
    ResponseHead { status, url: url.to_string(), location: location.map(|s| s.to_string()), content_type: None }
}

#[test]
fn download_follows_at_most_five_redirections() {
    let mut download = Download::new(MediaKind::Video, "https://e/0".to_string());
    for hop in 1..=5u32 {
        let next = format!("https://e/{}", hop);
        let step = download.on_response(&head(302, &download.url.clone(), Some(&format!("/{}", hop))), None);
        match step {
            DownloadStep::Follow(url) => assert_eq!(url, next),
            _ => panic!("redirection {} should be followed", hop),
        }
        assert_eq!(download.url, next);
        assert_eq!(download.redirects, hop);
    }
    let step = download.on_response(&head(302, "https://e/5", Some("/6")), None);
    assert!(matches!(step, DownloadStep::Failed(FetchError::TooManyRedirects)));
    assert_eq!(download.url, "https://e/5");
    assert_eq!(download.redirects, 5);
}

#[test]
fn download_stops_on_missing_location_or_bad_status() {
    let mut download = Download::new(MediaKind::Image, "https://e/0".to_string());
    assert!(matches!(download.on_response(&head(301, "https://e/0", None), None), DownloadStep::Failed(FetchError::MissingRedirectTarget)));
    assert!(matches!(download.on_response(&head(404, "https://e/0", None), None), DownloadStep::Failed(FetchError::HttpStatus(404))));
    assert!(matches!(download.on_response(&head(199, "https://e/0", None), None), DownloadStep::Failed(FetchError::HttpStatus(199))));
    assert!(matches!(download.on_response(&head(200, "https://e/0", None), None), DownloadStep::ReadBody));
    assert_eq!(download.redirects, 0);
}

#[test]
fn download_stops_on_a_location_that_cannot_be_resolved() {
    let mut download = Download::new(MediaKind::Video, "https://e/0".to_string());
    assert!(matches!(download.on_response(&head(302, "https://e/0", Some("http://")), None), DownloadStep::Failed(FetchError::MissingRedirectTarget)));
    assert!(matches!(download.on_response(&head(302, "https://e/0", Some("  ")), None), DownloadStep::Failed(FetchError::MissingRedirectTarget)));
    assert_eq!(download.url, "https://e/0");
    assert_eq!(download.redirects, 0);
}

#[test]
fn download_enforces_the_size_limit() {
    let mut video = Download::new(MediaKind::Video, "https://e/0".to_string());
    assert!(matches!(video.on_response(&head(200, "https://e/0", None), Some(100 * 1024 * 1024)), DownloadStep::ReadBody));
    assert!(matches!(video.on_response(&head(200, "https://e/0", None), Some(100 * 1024 * 1024 + 1)), DownloadStep::Failed(FetchError::PayloadTooLarge)));
    let mut image = Download::new(MediaKind::Image, "https://e/0".to_string());
    assert!(matches!(image.on_response(&head(200, "https://e/0", None), Some(15 * 1024 * 1024)), DownloadStep::ReadBody));
    assert!(matches!(image.on_response(&head(200, "https://e/0", None), Some(15 * 1024 * 1024 + 1)), DownloadStep::Failed(FetchError::PayloadTooLarge)));
    assert_eq!(check_payload(MediaKind::Video, 100 * 1024 * 1024), Ok(()));
    assert_eq!(check_payload(MediaKind::Video, 100 * 1024 * 1024 + 1), Err(FetchError::PayloadTooLarge));
    assert_eq!(check_payload(MediaKind::Image, 15 * 1024 * 1024), Ok(()));
    assert_eq!(check_payload(MediaKind::Image, 15 * 1024 * 1024 + 1), Err(FetchError::PayloadTooLarge));
}
