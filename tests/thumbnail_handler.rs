use std::io::Cursor;
use thumbnail_creator::config::{configure_app, AppConfig};
use thumbnail_creator::download::{DownloadOptions, ResponseHead};
use thumbnail_creator::handler::{
    build_response, validate_request, HandlerError, HandlerOptions, ThumbnailResponse,
};
use thumbnail_creator::pipeline::{
    after_body, after_head, after_lookup, after_resize, after_store, start, FetchFailure, Stage,
};
use thumbnail_creator::storage::ThumbnailStorage;
use thumbnail_creator::thumbnail::{ThumbnailCreator, ThumbnailOptions};

fn create_config() -> AppConfig {
    AppConfig {
        listen_ip: "0.0.0.0".to_owned(),
        listen_port: "8080".to_owned(),
        shutdown_timeout: 60,
        max_content_length: Some(1000000),
        check_mime_type: true,
        max_urls_in_single_req: 70,
        http_client_timeout: 5,
        thumbnail_width: 100,
        thumbnail_height: 100,
        thumbnail_exact_size: true,
        storage_base_dir: "thumbnails".to_owned(),
        thumbnail_extension: "jpg".to_owned(),
        log_level: "info".to_owned(),
    }
}

fn png_bytes(width: u32, height: u32, shade: u8) -> Vec<u8> {
    let img = image::DynamicImage::ImageRgb8(image::RgbImage::from_pixel(
        width,
        height,
        image::Rgb([shade, 0, 255 - shade]),
    ));
    let mut out = Cursor::new(Vec::new());
    img.write_to(&mut out, image::ImageOutputFormat::Png).unwrap();
    out.into_inner()
}

fn image_head(url: &str, len: usize) -> ResponseHead {
    ResponseHead {
        url: url.to_owned(),
        status: 200,
        content_length: Some(len as u64),
        content_type: Some("image/png".to_owned()),
    }
}

/// Drives one URL through the pipeline against in-memory answers: `body` is
/// what the server sends, `stored` whether a file already stands at the
/// content address.
fn run_pipeline(
    config: &AppConfig,
    url: &str,
    answer: &dyn Fn(&str) -> (Result<ResponseHead, String>, Result<Vec<u8>, FetchFailure>),
    stored: bool,
) -> Result<String, HandlerError> {
    let services = configure_app(config);
    let mut stage = start(url);
    let mut body = Err(FetchFailure::Send("not fetched".to_owned()));
    if let Stage::FetchHead = stage {
        let (head, answered_body) = answer(url);
        body = answered_body;
        stage = after_head(url, head, &services.download);
    }
    if let Stage::FetchBody = stage {
        stage = after_body(url, &services.storage, &body);
    }
    if let Stage::Lookup(_) = stage {
        stage = after_lookup(&services.storage, body.as_ref().unwrap(), stored);
    }
    if let Stage::Resize(handle) = stage {
        let made = services.thumbnail.make_thumbnail(body.as_ref().unwrap());
        stage = after_resize(handle, Some(made));
    }
    if let Stage::Store(handle, _picture) = stage {
        stage = after_store(&handle, Some(Ok(())));
    }
    match stage {
        Stage::Done(result) => result,
        _ => panic!("pipeline did not finish"),
    }
}

fn handle_urls(
    config: &AppConfig,
    urls: Vec<String>,
    answer: impl Fn(&str) -> (Result<ResponseHead, String>, Result<Vec<u8>, FetchFailure>),
) -> Result<ThumbnailResponse, String> {
    let services = configure_app(config);
    let unique = validate_request(&urls, &services.handler).map_err(|e| e.message())?;
    let mut results = Vec::new();
    let mut public_urls = Vec::new();
    for url in &unique {
        let result = run_pipeline(config, url, &answer, false);
        public_urls.push(match &result {
            Ok(path) => Some(format!("http://localhost:8080/thumbnail/{}", path)),
            Err(_) => None,
        });
        results.push(result);
    }
    Ok(build_response(&unique, &results, &public_urls))
}

fn lookup<'a>(pairs: &'a [(String, String)], key: &str) -> Option<&'a String> {
    pairs.iter().find(|(k, _)| k == key).map(|(_, v)| v)
}

#[test]
fn test_multiple_images() {
    let config = create_config();
    let urls = vec!["https://a/1.png".to_owned(), "https://a/2.png".to_owned()];
    let response = handle_urls(&config, urls, |url| {
        let bytes = if url.ends_with("1.png") { png_bytes(3, 2, 10) } else { png_bytes(40, 90, 200) };
        (Ok(image_head(url, bytes.len())), Ok(bytes))
    })
    .unwrap();
    assert_eq!(response.success.len(), 2);
    assert!(response.failed.is_empty());
    let first = lookup(&response.success, "https://a/1.png").unwrap();
    assert!(first.starts_with("http://localhost:8080/thumbnail/100x100/"));
    assert!(first.ends_with(".jpg"));
    assert_ne!(first, lookup(&response.success, "https://a/2.png").unwrap());
}

#[test]
fn test_non_unique() {
    let config = create_config();
    let urls = vec!["https://a/1.png".to_owned(), "https://a/1.png".to_owned()];
    let services = configure_app(&config);
    let unique = validate_request(&urls, &services.handler).unwrap();
    assert_eq!(unique, vec!["https://a/1.png".to_owned()]);
    let response = handle_urls(&config, urls, |url| {
        let bytes = png_bytes(3, 2, 10);
        (Ok(image_head(url, bytes.len())), Ok(bytes))
    })
    .unwrap();
    assert_eq!(response.success.len() + response.failed.len(), 1);
    assert!(lookup(&response.success, "https://a/1.png").is_some());
}

#[test]
fn test_content_length() {
    let mut config = create_config();
    config.max_content_length = Some(1000);
    let urls = vec!["https://a/big.png".to_owned()];
    let response = handle_urls(&config, urls, |url| {
        (Ok(image_head(url, 5000)), Err(FetchFailure::Read("must not be read".to_owned())))
    })
    .unwrap();
    assert!(response.success.is_empty());
    assert_eq!(
        lookup(&response.failed, "https://a/big.png").unwrap(),
        "Could not download image: Response from url 'https://a/big.png' returned content_length 5000 that exceeds max allowed 1000"
    );
}

#[test]
fn test_content_type() {
    let config = create_config();
    let urls = vec!["https://a/page.html".to_owned()];
    let response = handle_urls(&config, urls, |url| {
        let mut head = image_head(url, 10);
        head.content_type = Some("text/html; charset=utf-8".to_owned());
        (Ok(head), Ok(vec![0u8; 10]))
    })
    .unwrap();
    assert_eq!(
        lookup(&response.failed, "https://a/page.html").unwrap(),
        "Could not download image: Response from url 'https://a/page.html' returned content_type 'text/html; charset=utf-8'. Expecting content type starting with 'image/'"
    );
}

#[test]
fn test_incorrect_schema() {
    let config = create_config();
    let urls = vec!["ftp://a/1.png".to_owned()];
    let response = handle_urls(&config, urls, |_| panic!("no fetch for a refused url")).unwrap();
    assert_eq!(
        lookup(&response.failed, "ftp://a/1.png").unwrap(),
        "Could not download image: Failed to parse url 'ftp://a/1.png' error: incorrect scheme or host"
    );
}

#[test]
fn test_invalid_url() {
    let config = create_config();
    let urls = vec!["not a url".to_owned()];
    let response = handle_urls(&config, urls, |_| panic!("no fetch for an invalid url")).unwrap();
    assert!(response.success.is_empty());
    assert_eq!(
        lookup(&response.failed, "not a url").unwrap(),
        "Could not download image: Failed to parse url 'not a url' error: relative URL without a base"
    );
}

#[test]
fn test_no_urls() {
    let config = create_config();
    let result = handle_urls(&config, vec![], |_| panic!("no fetch for an empty request"));
    assert_eq!(result.unwrap_err(), "Request contains empty url array");
}

#[test]
fn test_status_code() {
    let config = create_config();
    let urls = vec!["https://a/missing.png".to_owned(), "https://a/1.png".to_owned()];
    let response = handle_urls(&config, urls, |url| {
        let bytes = png_bytes(3, 2, 10);
        let mut head = image_head(url, bytes.len());
        if url.ends_with("missing.png") {
            head.status = 404;
        }
        (Ok(head), Ok(bytes))
    })
    .unwrap();
    assert_eq!(response.success.len(), 1);
    assert_eq!(response.failed.len(), 1);
    assert_eq!(
        lookup(&response.failed, "https://a/missing.png").unwrap(),
        "Could not download image: Get image (image url: 'https://a/missing.png') returned status code != 200: 404"
    );
    assert!(lookup(&response.success, "https://a/1.png").is_some());
}

#[test]
fn test_too_many_urls() {
    let config = create_config();
    let urls: Vec<String> = (0..71).map(|i| format!("https://a/{}.png", i)).collect();
    let result = handle_urls(&config, urls, |_| panic!("no fetch for a refused request"));
    assert_eq!(result.unwrap_err(), "Request contains more than 70 unique urls");
}

#[test]
fn seventy_unique_urls_are_accepted() {
    let options = HandlerOptions { max_url_in_single_req: 70 };
    let mut urls: Vec<String> = (0..70).map(|i| format!("https://a/{}.png", i)).collect();
    urls.push("https://a/0.png".to_owned());
    assert_eq!(validate_request(&urls, &options).unwrap().len(), 70);
}

#[test]
fn unresolved_public_url_is_an_internal_error() {
    let urls = vec!["https://a/1.png".to_owned(), "https://a/2.png".to_owned()];
    let results = vec![Ok("100x100/x.jpg".to_owned()), Err(HandlerError::EmptyError)];
    let response = build_response(&urls, &results, &vec![None, None]);
    assert!(response.success.is_empty());
    assert_eq!(lookup(&response.failed, "https://a/1.png").unwrap(), "Internal server error");
    assert_eq!(lookup(&response.failed, "https://a/2.png").unwrap(), "not reachable error");
}

#[test]
fn transport_failures_name_the_url() {
    let config = create_config();
    let head_failed =
        run_pipeline(&config, "https://a/1.png", &|_| (Err("timed out".to_owned()), Ok(vec![])), false);
    assert_eq!(
        head_failed.unwrap_err().message(),
        "Could not download image: Failed to get image (image url: 'https://a/1.png') error: timed out"
    );
    let read_failed = run_pipeline(
        &config,
        "https://a/1.png",
        &|url| (Ok(image_head(url, 10)), Err(FetchFailure::Read("connection reset".to_owned()))),
        false,
    );
    assert_eq!(
        read_failed.unwrap_err().message(),
        "Could not download image: Failed to parse image payload (image url: 'https://a/1.png') error: connection reset"
    );
}

#[test]
fn undecodable_body_fails_in_the_engine() {
    let config = create_config();
    let result = run_pipeline(
        &config,
        "https://a/1.png",
        &|url| (Ok(image_head(url, 4)), Ok(vec![1, 2, 3, 4])),
        false,
    );
    assert!(result.unwrap_err().message().starts_with("Thumbnail ceation error: Could not parse image: "));
}

#[test]
fn identical_content_is_a_cache_hit() {
    let config = create_config();
    let services = configure_app(&config);
    let bytes = png_bytes(3, 2, 10);
    let first = after_lookup(&services.storage, &bytes, false);
    let path = match first {
        Stage::Resize(handle) => handle.path(),
        _ => panic!("a missing thumbnail is made"),
    };
    match after_lookup(&services.storage, &bytes.clone(), true) {
        Stage::Done(Ok(p)) => assert_eq!(p, path),
        _ => panic!("a stored thumbnail finishes the pipeline"),
    }
}

#[test]
fn cancelled_work_ends_the_pipeline() {
    let storage = ThumbnailStorage::new("base", 100, 100, "jpg");
    let handle = storage.get_image_handle(b"abc", false);
    match after_resize(handle.clone(), None) {
        Stage::Done(Err(e)) => assert_eq!(e.message(), "Operation cancelled: make thumbnail operation cancelled"),
        _ => panic!("cancelled"),
    }
    match after_store(&handle, None) {
        Stage::Done(Err(e)) => assert_eq!(e.message(), "Operation cancelled: thumbnail store operation cancelled"),
        _ => panic!("cancelled"),
    }
    match after_store(&handle, Some(Err("disk full".to_owned()))) {
        Stage::Done(Err(e)) => assert_eq!(e.message(), "Storage error: Store image error: disk full"),
        _ => panic!("failed store"),
    }
}

#[test]
fn error_statuses() {
    assert_eq!(HandlerError::EmptyURLArray.error_response(), 400);
    assert_eq!(HandlerError::TooManyURL(70).error_response(), 400);
    assert_eq!(HandlerError::EmptyError.error_response(), 500);
}

#[test]
fn download_options_without_limits_accept_any_head() {
    let options = DownloadOptions { max_content_length: None, check_mime_type: false };
    let head = ResponseHead {
        url: "https://a/1".to_owned(),
        status: 200,
        content_length: Some(u64::MAX),
        content_type: None,
    };
    assert!(matches!(after_head("https://a/1", Ok(head), &options), Stage::FetchBody));
}

#[test]
fn missing_content_type_is_refused_when_enforced() {
    let options = DownloadOptions { max_content_length: None, check_mime_type: true };
    let head = ResponseHead { url: "https://a/1".to_owned(), status: 200, content_length: None, content_type: None };
    match after_head("https://a/1", Ok(head), &options) {
        Stage::Done(Err(e)) => assert_eq!(
            e.message(),
            "Could not download image: Response from url 'https://a/1' returned content_type ''. Expecting content type starting with 'image/'"
        ),
        _ => panic!("refused"),
    }
}

#[test]
fn storage_paths_follow_the_layout() {
    let storage = ThumbnailStorage::new("/srv/thumbs", 120, 80, "png");
    assert_eq!(storage.get_base_path(), "/srv/thumbs");
    assert_eq!(storage.get_sub_path(), "120x80");
    assert_eq!(storage.relative_path(b"abc"), "120x80/900150983cd24fb0d6963f7d28e17f72.png");
    let handle = storage.get_image_handle(b"", true);
    assert_eq!(handle.path(), "120x80/d41d8cd98f00b204e9800998ecf8427e.png");
    assert!(handle.already_exists());
}

#[test]
fn exact_mode_gives_target_size() {
    let creator = ThumbnailCreator::new(ThumbnailOptions { width: 100, height: 100, exact_size: true });
    let pic = creator.make_thumbnail(&png_bytes(40, 90, 3)).unwrap();
    assert_eq!((pic.width(), pic.height()), (100, 100));
    assert_eq!((pic.image().width(), pic.image().height()), (100, 100));
}

#[test]
fn fit_mode_keeps_aspect_ratio() {
    let creator = ThumbnailCreator::new(ThumbnailOptions { width: 100, height: 100, exact_size: false });
    let pic = creator.make_thumbnail(&png_bytes(200, 100, 3)).unwrap();
    assert_eq!((pic.width(), pic.height()), (100, 50));
    let pic = creator.make_thumbnail(&png_bytes(30, 60, 3)).unwrap();
    assert_eq!((pic.width(), pic.height()), (50, 100));
}

#[test]
fn target_size_image_is_kept() {
    let creator = ThumbnailCreator::new(ThumbnailOptions { width: 7, height: 5, exact_size: false });
    let pic = creator.make_thumbnail(&png_bytes(7, 5, 3)).unwrap();
    assert_eq!((pic.width(), pic.height()), (7, 5));
}

#[test]
fn config_wires_height() {
    let mut config = create_config();
    config.thumbnail_height = 60;
    config.thumbnail_exact_size = true;
    let services = configure_app(&config);
    let pic = services.thumbnail.make_thumbnail(&png_bytes(10, 10, 3)).unwrap();
    assert_eq!((pic.width(), pic.height()), (100, 60));
    assert_eq!(services.handler.max_url_in_single_req, 70);
    assert_eq!(services.download.max_content_length, Some(1000000));
}
