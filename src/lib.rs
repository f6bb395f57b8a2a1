//! A small personal status tool: microblog posts, a "latest location" record
//! kept in a document store, and an attribution footer for a README file.
//!
//! The library holds the decisions; the caller performs the network and file
//! work that those decisions ask for and reports back what happened.

mod clock;
mod config;
mod error;
mod geo;
mod microblog;
mod readme;
mod refresh;
mod text;

pub use clock::is_utc_rfc3339;
pub use config::{resolve_location_config, resolve_store_config, EnvVar, LocationConfig, StoreConfig};
pub use error::{AdotError, ErrorModel};
pub use geo::{
    decode_payload, decode_response, lemma_complete_payload_decodes, lemma_error_status_reported,
    lemma_missing_field_named, location_request_url, GeoField, LocationModel, LocationRecord,
};
pub use microblog::{prepare_post, MicroblogPost, MICROBLOG_COLLECTION};
pub use readme::{
    current_footer_caption, footer, footer_caption, lemma_footer_added_once, plan_readme, ReadmeChange,
    DEFAULT_CAPTION, FOOTER_MARKER, README_TITLE,
};
pub use refresh::{
    lemma_failed_fetch_writes_nothing, lemma_fetched_record_stamped_at_start, lemma_finished_is_final, lemma_refresh_action_order, ActionModel,
    LocationRefresh, RefreshAction, RefreshEvent, RefreshPhase, RefreshState, LATEST_DOCUMENT,
    LOCATION_COLLECTION,
};
pub use text::contains_text;
