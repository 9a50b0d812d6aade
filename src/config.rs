//! Process-wide configuration, read once at startup, and the components it
//! configures.
use vstd::prelude::*;
use crate::download::DownloadOptions;
use crate::handler::HandlerOptions;
use crate::storage::{StorageLayout, ThumbnailStorage};
use crate::thumbnail::{ThumbnailCreator, ThumbnailOptions};

verus! {

/// Every setting of the service.
#[derive(Debug, Clone)]
pub struct AppConfig {
    pub listen_ip: String,
    pub listen_port: String,
    /// Seconds granted to in-flight requests at shutdown.
    pub shutdown_timeout: u64,
    /// Largest accepted declared body length in bytes; `None` for no limit.
    pub max_content_length: Option<u64>,
    pub check_mime_type: bool,
    pub max_urls_in_single_req: u64,
    /// Seconds granted to each outbound request.
    pub http_client_timeout: u64,
    pub thumbnail_width: u32,
    pub thumbnail_height: u32,
    pub thumbnail_exact_size: bool,
    pub storage_base_dir: String,
    pub thumbnail_extension: String,
    pub log_level: String,
}

/// The components that serve requests, configured once and shared read-only.
pub struct Services {
    pub thumbnail: ThumbnailCreator,
    pub storage: ThumbnailStorage,
    pub download: DownloadOptions,
    pub handler: HandlerOptions,
}

/// Builds the request-serving components from the configuration. The storage
/// directory itself is made by the caller.
pub fn configure_app(app_config: &AppConfig) -> (r: Services)
    ensures
        r.thumbnail@ == (ThumbnailOptions {
            width: app_config.thumbnail_width,
            height: app_config.thumbnail_height,
            exact_size: app_config.thumbnail_exact_size,
        }),
        r.storage@ == (StorageLayout {
            base_path: app_config.storage_base_dir@,
            width: app_config.thumbnail_width,
            height: app_config.thumbnail_height,
            ext: app_config.thumbnail_extension@,
        }),
        r.download == (DownloadOptions {
            max_content_length: app_config.max_content_length,
            check_mime_type: app_config.check_mime_type,
        }),
        r.handler == (HandlerOptions { max_url_in_single_req: app_config.max_urls_in_single_req }),
{
    let thumbnail = ThumbnailCreator::new(
        ThumbnailOptions {
            width: app_config.thumbnail_width,
            height: app_config.thumbnail_height,
            exact_size: app_config.thumbnail_exact_size,
        },
    );
    let storage = ThumbnailStorage::new(
        app_config.storage_base_dir.as_str(),
        app_config.thumbnail_width,
        app_config.thumbnail_height,
        app_config.thumbnail_extension.as_str(),
    );
    let download = DownloadOptions {
        max_content_length: app_config.max_content_length,
        check_mime_type: app_config.check_mime_type,
    };
    let handler = HandlerOptions { max_url_in_single_req: app_config.max_urls_in_single_req };
    Services { thumbnail, storage, download, handler }
}

} // verus!
