//! Registry webhook payloads and the push events drawn from them.

use crate::text::{concat2, concat3, owned, str_eq};
use vstd::prelude::*;

verus! {

/// Generic webhook payload for container registry notifications.
#[derive(Debug, Clone)]
pub struct RegistryWebhook {
    pub events: Vec<RegistryEvent>,
}

/// One event of a generic registry webhook.
#[derive(Debug, Clone)]
pub struct RegistryEvent {
    pub action: String,
    pub target: Target,
    pub request: Option<Request>,
}

/// What a registry event is about.
#[derive(Debug, Clone)]
pub struct Target {
    pub media_type: Option<String>,
    pub digest: String,
    pub repository: String,
    pub tag: Option<String>,
    pub url: Option<String>,
}

/// The request that caused a registry event.
#[derive(Debug, Clone)]
pub struct Request {
    pub id: String,
    pub method: String,
    pub useragent: String,
}

/// Docker Hub webhook format.
#[derive(Debug, Clone)]
pub struct DockerHubWebhook {
    pub push_data: PushData,
    pub repository: Repository,
}

/// The push part of a Docker Hub webhook.
#[derive(Debug, Clone)]
pub struct PushData {
    pub tag: String,
    pub pushed_at: Option<i64>,
    pub pusher: Option<String>,
}

/// The repository part of a Docker Hub webhook.
#[derive(Debug, Clone)]
pub struct Repository {
    pub repo_name: String,
    pub namespace: String,
    pub name: String,
}

/// Normalized image push event.
#[derive(Debug, Clone)]
pub struct ImagePushEvent {
    pub registry: String,
    pub repository: String,
    pub tag: String,
    pub digest: Option<String>,
}

/// Normalized Helm chart push event.
#[derive(Debug, Clone)]
pub struct ChartPushEvent {
    pub registry: String,
    pub repository: String,
    pub version: String,
    pub digest: Option<String>,
}

/// The image reference of a push: Docker Hub images (empty registry or
/// `docker.io`) are written without their registry.
pub open spec fn full_image_of(registry: Seq<char>, repository: Seq<char>, tag: Seq<char>) -> Seq<
    char,
> {
    if registry.len() == 0 || registry == "docker.io"@ {
        repository + ":"@ + tag
    } else {
        registry + "/"@ + repository + ":"@ + tag
    }
}

impl ImagePushEvent {
    /// The full image reference that was pushed.
    pub fn full_image(&self) -> (r: String)
        ensures
            r@ == full_image_of(self.registry@, self.repository@, self.tag@),
    {
        if self.registry.unicode_len() == 0 || str_eq(self.registry.as_str(), "docker.io") {
            concat3(self.repository.as_str(), ":", self.tag.as_str())
        } else {
            let head = concat3(self.registry.as_str(), "/", self.repository.as_str());
            concat3(head.as_str(), ":", self.tag.as_str())
        }
    }
}

/// The OCI address of a pushed chart: `oci://` then registry and repository.
pub open spec fn oci_url_of(registry: Seq<char>, repository: Seq<char>) -> Seq<char> {
    "oci://"@ + registry + "/"@ + repository
}

impl ChartPushEvent {
    /// The OCI address of the chart, without its version.
    pub fn base_oci_url(&self) -> (r: String)
        ensures
            r@ == oci_url_of(self.registry@, self.repository@),
    {
        let head = concat3("oci://", self.registry.as_str(), "/");
        concat2(head.as_str(), self.repository.as_str())
    }
}

} // verus!
