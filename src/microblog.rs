use vstd::prelude::*;

use crate::clock::{is_utc_rfc3339, utc_now_rfc3339};
use crate::config::{resolve_store_config, EnvVar, StoreConfig};
use crate::error::{AdotError, ErrorModel};

verus! {

/// The collection that holds the posts, one document per post, keyed by its id.
pub const MICROBLOG_COLLECTION: &'static str = "microblog";

/// One short post.
#[derive(Clone, Debug, PartialEq, Eq)]
pub struct MicroblogPost {
    pub id: String,
    pub content: String,
    /// When the post was made, as an RFC 3339 UTC timestamp.
    pub posted_at: String,
}

pub open spec fn is_lower_hex_digit(c: char) -> bool {
    ('0' <= c && c <= '9') || ('a' <= c && c <= 'f')
}

/// A random (version 4) UUID in its hyphenated lower-case form.
pub open spec fn is_v4_uuid_text(s: Seq<char>) -> bool {
    &&& s.len() == 36
    &&& forall|i: int|
        0 <= i < 36 ==> if i == 8 || i == 13 || i == 18 || i == 23 {
            s[i] == '-'
        } else {
            is_lower_hex_digit(#[trigger] s[i])
        }
    &&& s[14] == '4'
}

/// Relies on uuid::Uuid::new_v4 and Uuid's Display, which writes the
/// hyphenated lower-case form: a fresh random identifier.
#[verifier::external_body]
fn fresh_uuid() -> (r: String)
    ensures
        is_v4_uuid_text(r@),
{
    uuid::Uuid::new_v4().to_string()
}

/// Resolves the store settings and makes a post of `content` with a fresh
/// identifier and the current time; a missing setting fails first.
pub fn prepare_post(content: String, project_id: Option<String>, credentials_path: Option<String>) -> (r: Result<
    (StoreConfig, MicroblogPost),
    AdotError,
>)
    ensures
        project_id is None ==> r is Err && r->Err_0@ == (ErrorModel::MissingConfig { var: EnvVar::ProjectId }),
        project_id is Some && credentials_path is None ==> r is Err
            && r->Err_0@ == (ErrorModel::MissingConfig { var: EnvVar::Credentials }),
        project_id is Some && credentials_path is Some ==> r is Ok && ({
            let (config, post) = r->Ok_0;
            &&& config.project_id@ == project_id->Some_0@
            &&& config.credentials_path@ == credentials_path->Some_0@
            &&& post.content@ == content@
            &&& is_v4_uuid_text(post.id@)
            &&& is_utc_rfc3339(post.posted_at@)
        }),
{
    let id = fresh_uuid();
    let posted_at = utc_now_rfc3339();
    match resolve_store_config(project_id, credentials_path) {
        Err(e) => Err(e),
        Ok(config) => Ok((config, MicroblogPost { id, content, posted_at })),
    }
}

} // verus!
