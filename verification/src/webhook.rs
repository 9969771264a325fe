//! Registry webhooks: which push events a payload carries, and which
//! workload containers a push concerns.

use crate::controller::deployment::ContainerInfo;
use crate::models::policy::{
    annotations, event_source_named, policy_from_annotations, policy_matches_annotations, policy_named,
    EventSource, PolicyError, ResourcePolicy,
};
use crate::models::webhook::oci_url_of;
use crate::parse::{comma_list, map_get};
use crate::models::webhook::{ChartPushEvent, DockerHubWebhook, ImagePushEvent, RegistryEvent, RegistryWebhook};
use crate::parse::lookup;
use crate::text::{
    concat2, concat3, contains_char, contains_str, seq_contains, find_char, first_index_of, last_index_of, owned, rfind_char,
    seq_starts_with, slice, starts_with, str_eq, strip_prefix_once, strip_prefix_or_keep,
    trim_end_char, trim_end_matches_char,
};
use std::collections::BTreeMap;
use vstd::prelude::*;

verus! {

/// The part of `s` before its first `c`, or all of `s` (as
/// `s.split(c).next().unwrap()`).
pub open spec fn before_first(s: Seq<char>, c: char) -> Seq<char> {
    let i = first_index_of(s, c);
    if i < 0 {
        s
    } else {
        s.subrange(0, i)
    }
}

/// An image reference without its tag and digest. A `:` after the last `/`
/// starts the tag; without a `/`, a `:` starts the tag unless a `.` comes
/// before it (then it is a registry port).
pub open spec fn image_name_of(image: Seq<char>) -> Seq<char> {
    let w = before_first(image, '@');
    let slash = last_index_of(w, '/');
    if slash >= 0 {
        let c = last_index_of(w.subrange(slash, w.len() as int), ':');
        if c >= 0 {
            w.subrange(0, slash + c)
        } else {
            w
        }
    } else {
        let c = last_index_of(w, ':');
        if c >= 0 {
            if w.subrange(0, c).contains('.') {
                w
            } else {
                w.subrange(0, c)
            }
        } else {
            w
        }
    }
}

/// The image name that a push event describes, as a workload would write it.
pub open spec fn event_image_of(registry: Seq<char>, repository: Seq<char>) -> Seq<char> {
    if registry == "docker.io"@ || registry == "library"@ || (!registry.contains('.')
        && !registry.contains(':')) {
        repository
    } else {
        registry + "/"@ + repository
    }
}

/// A push of a Docker Hub official image.
pub open spec fn is_library_push(registry: Seq<char>, repository: Seq<char>) -> bool {
    ||| registry == "library"@
    ||| (registry == "docker.io"@ && !repository.contains('/'))
    ||| (registry == "docker.io"@ && seq_starts_with(repository, "library/"@))
}

/// Whether a push to `registry`/`repository` concerns a container that runs
/// `deployment_image`. Docker Hub names match with or without `docker.io/`,
/// and official images with or without `library/`.
pub open spec fn images_match_spec(registry: Seq<char>, repository: Seq<char>, deployment_image: Seq<
    char,
>) -> bool {
    let normalized = strip_prefix_once(image_name_of(deployment_image), "docker.io/"@);
    if is_library_push(registry, repository) {
        strip_prefix_once(repository, "library/"@) == strip_prefix_once(normalized, "library/"@)
    } else {
        event_image_of(registry, repository) == normalized
    }
}

/// An image name without tag or digest: it has a `/`, no `@`, and no `:`
/// after its last `/`.
pub open spec fn bare_image(img: Seq<char>) -> bool {
    &&& img.contains('/')
    &&& !img.contains('@')
    &&& forall|j: int| last_index_of(img, '/') < j < img.len() ==> img[j] != ':'
}

proof fn lemma_before_first_concat(a: Seq<char>, b: Seq<char>, c: char)
    requires
        !a.contains(c),
    ensures
        before_first(a + b, c) == a + before_first(b, c),
{
    crate::text::lemma_first_index_bounds(b, c);
    let k = first_index_of(b, c);
    let s = a + b;
    if k >= 0 {
        assert(s[a.len() + k] == c);
        assert forall|j: int| 0 <= j < s.len() && j < a.len() + k implies s[j] != c by {
            if j < a.len() {
                assert(s[j] == a[j]);
            } else {
                assert(s[j] == b[j - a.len()]);
            }
        }
        crate::text::lemma_first_index_unique(s, c, a.len() + k);
        assert(s.subrange(0, a.len() + k) =~= a + b.subrange(0, k));
    } else {
        assert forall|j: int| 0 <= j < s.len() implies s[j] != c by {
            if j < a.len() {
                assert(s[j] == a[j]);
            } else {
                assert(s[j] == b[j - a.len()]);
            }
        }
        crate::text::lemma_first_index_unique(s, c, -1);
    }
}

proof fn lemma_bare_name(img: Seq<char>)
    requires
        bare_image(img),
    ensures
        image_name_of(img) == img,
        last_index_of(img, '/') >= 0,
{
    crate::text::lemma_first_index_unique(img, '@', -1);
    crate::text::lemma_last_index_bounds(img, '/');
    let s0 = last_index_of(img, '/');
    if s0 < 0 {
        let k = choose|k: int| 0 <= k < img.len() && img[k] == '/';
        assert(img[k] != '/');
    }
    let tail = img.subrange(s0, img.len() as int);
    assert forall|j: int| -1 < j < tail.len() implies tail[j] != ':' by {
        assert(tail[j] == img[s0 + j]);
        if j == 0 {
            assert(img[s0] == '/');
        }
    }
    crate::text::lemma_last_index_unique(tail, ':', -1);
}

proof fn lemma_plain_name(img: Seq<char>)
    requires
        !img.contains('@'),
        !img.contains(':'),
    ensures
        image_name_of(img) == img,
{
    crate::text::lemma_first_index_unique(img, '@', -1);
    crate::text::lemma_last_index_bounds(img, '/');
    let s0 = last_index_of(img, '/');
    if s0 >= 0 {
        let tail = img.subrange(s0, img.len() as int);
        assert forall|j: int| -1 < j < tail.len() implies tail[j] != ':' by {
            assert(tail[j] == img[s0 + j]);
        }
        crate::text::lemma_last_index_unique(tail, ':', -1);
    } else {
        crate::text::lemma_last_index_unique(img, ':', -1);
    }
}

/// A push to Docker Hub concerns the containers that run its repository,
/// written with or without `docker.io/` (tags and digests aside): for
/// `docker.io` and `myorg/myapp`, a container running `myorg/myapp` or
/// `docker.io/myorg/myapp` is matched.
pub proof fn lemma_docker_hub_push_matches_repository(repository: Seq<char>)
    requires
        !repository.contains(':'),
        !repository.contains('@'),
        !seq_starts_with(repository, "docker.io/"@),
    ensures
        images_match_spec("docker.io"@, repository, repository),
        images_match_spec("docker.io"@, repository, "docker.io/"@ + repository),
{
    reveal_strlit("docker.io/");
    reveal_strlit("docker.io");
    lemma_plain_name(repository);
    let d = "docker.io/"@;
    let full = d + repository;
    assert(!full.contains('@')) by {
        if full.contains('@') {
            let k = choose|k: int| 0 <= k < full.len() && full[k] == '@';
            if k >= d.len() {
                assert(repository[k - d.len()] == '@');
            }
        }
    }
    assert(!full.contains(':')) by {
        if full.contains(':') {
            let k = choose|k: int| 0 <= k < full.len() && full[k] == ':';
            if k >= d.len() {
                assert(repository[k - d.len()] == ':');
            }
        }
    }
    lemma_plain_name(full);
    assert(seq_starts_with(full, d)) by {
        assert(full.subrange(0, d.len() as int) =~= d);
    }
    assert(full.subrange(d.len() as int, full.len() as int) =~= repository);
    assert(strip_prefix_once(full, d) == repository);
    assert(strip_prefix_once(repository, d) == repository);
}

/// An official Docker Hub image is matched written with `library/` too:
/// a push of `nginx` concerns containers running `library/nginx`.
pub proof fn lemma_official_image_matches_library_name(repository: Seq<char>)
    requires
        !repository.contains(':'),
        !repository.contains('@'),
        !repository.contains('/'),
        repository.len() > 0,
    ensures
        images_match_spec("docker.io"@, repository, "library/"@ + repository),
        images_match_spec("docker.io"@, repository, repository),
{
    reveal_strlit("docker.io/");
    reveal_strlit("docker.io");
    reveal_strlit("library/");
    let l = "library/"@;
    let d = "docker.io/"@;
    let full = l + repository;
    assert(!full.contains('@')) by {
        if full.contains('@') {
            let k = choose|k: int| 0 <= k < full.len() && full[k] == '@';
            if k >= l.len() {
                assert(repository[k - l.len()] == '@');
            }
        }
    }
    assert(!full.contains(':')) by {
        if full.contains(':') {
            let k = choose|k: int| 0 <= k < full.len() && full[k] == ':';
            if k >= l.len() {
                assert(repository[k - l.len()] == ':');
            }
        }
    }
    lemma_plain_name(full);
    lemma_plain_name(repository);
    assert(!seq_starts_with(full, d)) by {
        if seq_starts_with(full, d) {
            assert(full.subrange(0, d.len() as int)[0] == full[0]);
        }
    }
    assert(!seq_starts_with(repository, d)) by {
        if seq_starts_with(repository, d) {
            assert(repository.subrange(0, d.len() as int)[9] == repository[9]);
        }
    }
    assert(!seq_starts_with(repository, l)) by {
        if seq_starts_with(repository, l) {
            assert(repository.subrange(0, l.len() as int)[7] == repository[7]);
        }
    }
    assert(seq_starts_with(full, l)) by {
        assert(full.subrange(0, l.len() as int) =~= l);
    }
    assert(full.subrange(l.len() as int, full.len() as int) =~= repository);
}

/// A tag or a digest added to an image name does not change which pushes
/// the image matches.
pub proof fn lemma_images_match_ignores_tag_and_digest(
    registry: Seq<char>,
    repository: Seq<char>,
    img: Seq<char>,
    tag: Seq<char>,
    digest: Seq<char>,
)
    requires
        bare_image(img),
        !tag.contains(':'),
        !tag.contains('/'),
    ensures
        images_match_spec(registry, repository, img + ":"@ + tag) == images_match_spec(
            registry,
            repository,
            img,
        ),
        images_match_spec(registry, repository, img + "@"@ + digest) == images_match_spec(
            registry,
            repository,
            img,
        ),
{
    lemma_bare_name(img);
    let s0 = last_index_of(img, '/');
    reveal_strlit("@");
    reveal_strlit(":");
    crate::text::lemma_first_index_unique(img, '@', -1);
    // the digest
    lemma_before_first_concat(img, "@"@ + digest, '@');
    assert(img + "@"@ + digest =~= img + ("@"@ + digest));
    let at = "@"@ + digest;
    assert(at[0] == '@');
    crate::text::lemma_first_index_unique(at, '@', 0);
    assert(at.subrange(0, 0) =~= Seq::<char>::empty());
    assert(img + Seq::<char>::empty() =~= img);
    assert(before_first(img + "@"@ + digest, '@') == before_first(img, '@'));
    // the tag
    let a = img + ":"@;
    assert(!a.contains('@')) by {
        if a.contains('@') {
            let k = choose|k: int| 0 <= k < a.len() && a[k] == '@';
            if k < img.len() {
                assert(img[k] == '@');
            }
        }
    }
    lemma_before_first_concat(a, tag, '@');
    crate::text::lemma_first_index_bounds(tag, '@');
    let t = before_first(tag, '@');
    let w = a + t;
    assert(img + ":"@ + tag == a + tag);
    assert forall|j: int| s0 < j < w.len() implies w[j] != '/' by {
        if j < img.len() {
            assert(w[j] == img[j]);
            crate::text::lemma_last_index_bounds(img, '/');
        } else if j > img.len() {
            assert(w[j] == tag[j - img.len() - 1]);
            assert(!tag.contains('/'));
        }
    }
    crate::text::lemma_last_index_bounds(img, '/');
    assert(w[s0] == img[s0]);
    crate::text::lemma_last_index_unique(w, '/', s0);
    let tail = w.subrange(s0, w.len() as int);
    let ci = img.len() - s0;
    assert(tail[ci] == ':');
    assert forall|j: int| ci < j < tail.len() implies tail[j] != ':' by {
        assert(tail[j] == tag[s0 + j - img.len() - 1]);
        assert(!tag.contains(':'));
    }
    crate::text::lemma_last_index_unique(tail, ':', ci);
    assert(w.subrange(0, s0 + ci) =~= img);
    assert(image_name_of(img + ":"@ + tag) == img);
}

fn image_name<'a>(image: &'a str) -> (r: &'a str)
    ensures
        r@ == image_name_of(image@),
{
    let without_digest = match find_char(image, '@') {
        Some(i) => {
            proof {
                crate::text::lemma_first_index_bounds(image@, '@');
            }
            slice(image, 0, i)
        },
        None => image,
    };
    let n = without_digest.unicode_len();
    match rfind_char(without_digest, '/') {
        Some(slash) => {
            proof {
                crate::text::lemma_last_index_bounds(without_digest@, '/');
            }
            let tail = slice(without_digest, slash, n);
            match rfind_char(tail, ':') {
                Some(c) => {
                    proof {
                        crate::text::lemma_last_index_bounds(tail@, ':');
                    }
                    slice(without_digest, 0, slash + c)
                },
                None => without_digest,
            }
        },
        None => {
            match rfind_char(without_digest, ':') {
                Some(c) => {
                    proof {
                        crate::text::lemma_last_index_bounds(without_digest@, ':');
                    }
                    if contains_char(slice(without_digest, 0, c), '.') {
                        without_digest
                    } else {
                        slice(without_digest, 0, c)
                    }
                },
                None => without_digest,
            }
        },
    }
}

/// Check if a push event and a workload image refer to the same image.
pub fn images_match(event_registry: &str, event_repository: &str, deployment_image: &str) -> (r:
    bool)
    ensures
        r == images_match_spec(event_registry@, event_repository@, deployment_image@),
{
    let name = image_name(deployment_image);
    let normalized = strip_prefix_or_keep(name, "docker.io/");
    let is_docker_io = str_eq(event_registry, "docker.io");
    let is_library = str_eq(event_registry, "library") || (is_docker_io && !contains_char(
        event_repository,
        '/',
    )) || (is_docker_io && starts_with(event_repository, "library/"));
    if is_library {
        let a = strip_prefix_or_keep(event_repository, "library/");
        let b = strip_prefix_or_keep(normalized, "library/");
        str_eq(a, b)
    } else {
        let event_image = if is_docker_io || str_eq(event_registry, "library") || (!contains_char(
            event_registry,
            '.',
        ) && !contains_char(event_registry, ':')) {
            owned(event_repository)
        } else {
            concat3(event_registry, "/", event_repository)
        };
        str_eq(event_image.as_str(), normalized)
    }
}

/// The image reference a workload should run after a push: Docker Hub
/// images are written without their registry.
pub open spec fn format_image_spec(registry: Seq<char>, repository: Seq<char>, tag: Seq<char>) -> Seq<
    char,
> {
    if registry == "docker.io"@ {
        repository + ":"@ + tag
    } else {
        registry + "/"@ + repository + ":"@ + tag
    }
}

/// Format image with registry and tag.
pub fn format_image(registry: &str, repository: &str, tag: &str) -> (r: String)
    ensures
        r@ == format_image_spec(registry@, repository@, tag@),
{
    if str_eq(registry, "docker.io") {
        concat3(repository, ":", tag)
    } else {
        let head = concat3(registry, "/", repository);
        concat3(head.as_str(), ":", tag)
    }
}

/// The registry of a pushed repository: its first path segment when that
/// looks like a host (holds `.` or `:`), else Docker Hub.
pub open spec fn registry_of_repository(repository: Seq<char>) -> Seq<char> {
    let i = first_index_of(repository, '/');
    if i >= 0 && (repository.subrange(0, i).contains('.') || repository.subrange(0, i).contains(':')) {
        repository.subrange(0, i)
    } else {
        "docker.io"@
    }
}

/// The registry host of a pushed repository.
pub fn extract_registry(repository: &str) -> (r: String)
    ensures
        r@ == registry_of_repository(repository@),
{
    match find_char(repository, '/') {
        Some(i) => {
            proof {
                crate::text::lemma_first_index_bounds(repository@, '/');
            }
            let first = slice(repository, 0, i);
            if contains_char(first, '.') || contains_char(first, ':') {
                return owned(first);
            }
        },
        None => {},
    }
    owned("docker.io")
}

/// An image reference split into name and tag: the tag follows the last
/// `:` unless a `/` comes after that `:` (then it is a registry port and the
/// tag is `latest`, as it is when there is no `:` at all).
pub open spec fn image_parts(image: Seq<char>) -> (Seq<char>, Seq<char>) {
    let i = last_index_of(image, ':');
    if i < 0 {
        (image, "latest"@)
    } else {
        let tag = image.subrange(i + 1, image.len() as int);
        if tag.contains('/') {
            (image, "latest"@)
        } else {
            (image.subrange(0, i), tag)
        }
    }
}

/// Splits an image reference into name and tag.
pub fn split_image(image: &str) -> (r: (String, String))
    ensures
        r.0@ == image_parts(image@).0,
        r.1@ == image_parts(image@).1,
{
    match rfind_char(image, ':') {
        Some(i) => {
            proof {
                crate::text::lemma_last_index_bounds(image@, ':');
            }
            let n = image.unicode_len();
            let tag = slice(image, i + 1, n);
            if contains_char(tag, '/') {
                (owned(image), owned("latest"))
            } else {
                (owned(slice(image, 0, i)), owned(tag))
            }
        },
        None => (owned(image), owned("latest")),
    }
}

/// An image reference that could not be split (never produced: every
/// string splits).
#[derive(Debug, Clone)]
pub struct ImageParseError;

/// Parse image into (full_name, tag).
pub fn parse_image_full(image: &str) -> (r: Result<(String, String), ImageParseError>)
    ensures
        r matches Ok(p) && p.0@ == image_parts(image@).0 && p.1@ == image_parts(image@).1,
{
    Ok(split_image(image))
}

/// Reads the update policy of a resource from its annotations.
pub fn parse_policy_from_annotations(annotations: &BTreeMap<String, String>) -> (r: Result<
    ResourcePolicy,
    PolicyError,
>)
    ensures
        match r {
            Ok(p) => policy_matches_annotations(p, annotations.deep_view()),
            Err(PolicyError::InvalidPolicy(t)) => {
                &&& lookup(annotations.deep_view(), crate::models::policy::annotations::POLICY@)
                    == Some(t@)
                &&& crate::models::policy::policy_named(t@) is None
            },
        },
{
    policy_from_annotations(annotations)
}

/// A push that a registry webhook reports.
#[derive(Debug, Clone)]
pub enum PushEvent {
    Image(ImagePushEvent),
    Chart(ChartPushEvent),
}

/// The media type marks a Helm chart.
pub open spec fn is_helm_media(media_type: Option<Seq<char>>) -> bool {
    match media_type {
        Some(m) => seq_contains(m, "helm.config"@),
        None => false,
    }
}

/// The push that one registry event reports, if any: only `push` actions
/// with a tag count, and a Helm media type makes it a chart push.
pub open spec fn push_of_event(e: RegistryEvent) -> Option<PushEventView> {
    match e.target.tag {
        Some(tag) => if e.action@ == "push"@ {
            let registry = registry_of_repository(e.target.repository@);
            let mt = match e.target.media_type {
                Some(m) => Some(m@),
                None => None,
            };
            if is_helm_media(mt) {
                Some(PushEventView::Chart(registry, e.target.repository@, tag@, e.target.digest@))
            } else {
                Some(PushEventView::Image(registry, e.target.repository@, tag@, e.target.digest@))
            }
        } else {
            None
        },
        None => None,
    }
}

/// A push event as characters: registry, repository, tag or version, and
/// digest.
pub enum PushEventView {
    Image(Seq<char>, Seq<char>, Seq<char>, Seq<char>),
    Chart(Seq<char>, Seq<char>, Seq<char>, Seq<char>),
}

impl PushEvent {
    /// The event as characters (the digest of a push is always present).
    pub open spec fn view_as(&self) -> PushEventView {
        match self {
            PushEvent::Image(e) => PushEventView::Image(
                e.registry@,
                e.repository@,
                e.tag@,
                match e.digest {
                    Some(d) => d@,
                    None => Seq::empty(),
                },
            ),
            PushEvent::Chart(e) => PushEventView::Chart(
                e.registry@,
                e.repository@,
                e.version@,
                match e.digest {
                    Some(d) => d@,
                    None => Seq::empty(),
                },
            ),
        }
    }

    /// A digest is attached.
    pub open spec fn has_digest(&self) -> bool {
        match self {
            PushEvent::Image(e) => e.digest is Some,
            PushEvent::Chart(e) => e.digest is Some,
        }
    }
}

/// The pushes of the events before `k`, in order.
pub open spec fn pushes_upto(events: Seq<RegistryEvent>, k: int) -> Seq<PushEventView>
    decreases k,
{
    if k <= 0 {
        seq![]
    } else {
        let rest = pushes_upto(events, k - 1);
        match push_of_event(events[k - 1]) {
            Some(p) => rest.push(p),
            None => rest,
        }
    }
}

fn push_from_event(e: &RegistryEvent) -> (r: Option<PushEvent>)
    ensures
        match r {
            Some(p) => push_of_event(*e) == Some(p.view_as()) && p.has_digest(),
            None => push_of_event(*e) is None,
        },
{
    match &e.target.tag {
        Some(tag) => {
            if !str_eq(e.action.as_str(), "push") {
                return None;
            }
            let helm = match &e.target.media_type {
                Some(m) => contains_str(m.as_str(), "helm.config"),
                None => false,
            };
            let registry = extract_registry(e.target.repository.as_str());
            let repository = owned(e.target.repository.as_str());
            let digest = Some(owned(e.target.digest.as_str()));
            if helm {
                Some(PushEvent::Chart(ChartPushEvent { registry, repository, version: owned(tag.as_str()), digest }))
            } else {
                Some(PushEvent::Image(ImagePushEvent { registry, repository, tag: owned(tag.as_str()), digest }))
            }
        },
        None => None,
    }
}

/// The pushes that a registry webhook reports, in the order of its events.
pub fn registry_push_events(payload: &RegistryWebhook) -> (r: Vec<PushEvent>)
    ensures
        r@.map_values(|p: PushEvent| p.view_as()) == pushes_upto(payload.events@, payload.events@.len() as int),
        forall|i: int| 0 <= i < r@.len() ==> (#[trigger] r@[i]).has_digest(),
{
    let mut out: Vec<PushEvent> = Vec::new();
    let mut k: usize = 0;
    while k < payload.events.len()
        invariant
            k <= payload.events@.len(),
            out@.map_values(|p: PushEvent| p.view_as()) == pushes_upto(payload.events@, k as int),
            forall|i: int| 0 <= i < out@.len() ==> (#[trigger] out@[i]).has_digest(),
        decreases payload.events@.len() - k,
    {
        let ghost before = out@;
        match push_from_event(&payload.events[k]) {
            Some(p) => {
                out.push(p);
                assert(out@.map_values(|p: PushEvent| p.view_as()) =~= before.map_values(|p: PushEvent| p.view_as()).push(p.view_as()));
            },
            None => {},
        }
        k = k + 1;
    }
    out
}

/// The push that a Docker Hub webhook reports: always a Docker Hub image,
/// without a digest.
pub fn dockerhub_push_event(payload: &DockerHubWebhook) -> (r: ImagePushEvent)
    ensures
        r.registry@ == "docker.io"@,
        r.repository@ == payload.repository.repo_name@,
        r.tag@ == payload.push_data.tag@,
        r.digest is None,
{
    ImagePushEvent {
        registry: owned("docker.io"),
        repository: owned(payload.repository.repo_name.as_str()),
        tag: owned(payload.push_data.tag.as_str()),
        digest: None,
    }
}

/// The event source that the annotations `m` set (webhook when absent or
/// unknown).
pub open spec fn annotated_event_source(m: Map<Seq<char>, Seq<char>>) -> EventSource {
    match lookup(m, annotations::EVENT_SOURCE@) {
        Some(v) => match event_source_named(v) {
            Some(e) => e,
            None => EventSource::Webhook,
        },
        None => EventSource::Webhook,
    }
}

/// A resource with annotations `m` takes webhook events: it has a policy
/// annotation naming a policy, and its event source includes webhooks.
pub open spec fn takes_webhooks(m: Map<Seq<char>, Seq<char>>) -> bool {
    &&& lookup(m, annotations::POLICY@) matches Some(v) && policy_named(v) is Some
    &&& (annotated_event_source(m) == EventSource::Webhook || annotated_event_source(m)
        == EventSource::Both)
}

/// The policy of a resource that takes webhook events, `None` for any
/// other resource.
pub fn webhook_policy(annotations: &BTreeMap<String, String>) -> (r: Option<ResourcePolicy>)
    ensures
        r is Some <==> takes_webhooks(annotations.deep_view()),
        r matches Some(p) ==> policy_matches_annotations(p, annotations.deep_view()),
{
    if map_get(annotations, annotations::POLICY).is_none() {
        return None;
    }
    match policy_from_annotations(annotations) {
        Ok(p) => {
            if p.event_source.accepts_webhooks() {
                Some(p)
            } else {
                None
            }
        },
        Err(_) => None,
    }
}

/// The names of the containers that the annotations `m` restrict updates
/// to (none: all of them).
pub open spec fn tracked_images_of(m: Map<Seq<char>, Seq<char>>) -> Seq<Seq<char>> {
    match lookup(m, annotations::IMAGES@) {
        Some(v) => comma_list(v),
        None => Seq::empty(),
    }
}

/// A workload as the webhook processing reads it.
#[derive(Debug, Clone)]
pub struct WorkloadView {
    pub name: String,
    pub namespace: Option<String>,
    pub annotations: Option<BTreeMap<String, String>>,
    /// The containers of the pod template, `None` without a template spec
    pub containers: Option<Vec<ContainerInfo>>,
}

/// An image update that a push calls for.
#[derive(Debug, Clone)]
pub struct PlannedImageUpdate {
    /// Index of the workload in the list given
    pub resource: usize,
    pub container: String,
    pub current_image: String,
    /// The current image without its tag
    pub image_name: String,
    /// The image with the pushed tag
    pub new_image: String,
}

/// A planned update as characters.
pub struct PlannedView {
    pub resource: int,
    pub container: Seq<char>,
    pub current_image: Seq<char>,
    pub image_name: Seq<char>,
    pub new_image: Seq<char>,
}

impl PlannedImageUpdate {
    pub open spec fn view(&self) -> PlannedView {
        PlannedView {
            resource: self.resource as int,
            container: self.container@,
            current_image: self.current_image@,
            image_name: self.image_name@,
            new_image: self.new_image@,
        }
    }
}

/// The update a push calls for in a container running `image`: when the
/// image is the pushed one and runs another tag.
pub open spec fn push_update_for(event: ImagePushEvent, image: Seq<char>) -> Option<(Seq<char>, Seq<char>)> {
    let (name, tag) = image_parts(image);
    if images_match_spec(event.registry@, event.repository@, name) && tag != event.tag@ {
        Some((name, format_image_spec(event.registry@, event.repository@, event.tag@)))
    } else {
        None
    }
}

/// The updates a push calls for in containers `cs` of workload `idx`
/// (only in the restrict ones when `restrict` is given).
pub open spec fn container_updates(
    event: ImagePushEvent,
    restrict: Option<Seq<Seq<char>>>,
    cs: Seq<ContainerInfo>,
    idx: int,
) -> Seq<PlannedView>
    decreases cs.len(),
{
    if cs.len() == 0 {
        Seq::empty()
    } else {
        let c = cs[0];
        let rest = container_updates(event, restrict, cs.drop_first(), idx);
        let considered = match restrict {
            Some(t) => crate::controller::deployment::tracks(t, c.name@),
            None => true,
        };
        match c.image {
            Some(img) => if considered {
                match push_update_for(event, img@) {
                    Some((name, new_image)) => seq![
                        PlannedView {
                            resource: idx,
                            container: c.name@,
                            current_image: img@,
                            image_name: name,
                            new_image,
                        },
                    ] + rest,
                    None => rest,
                }
            } else {
                rest
            },
            None => rest,
        }
    }
}

/// The updates a push calls for in the workloads `ws`, the first of which
/// has index `idx`: in order, for each workload that takes webhook events,
/// for each of its containers. With `by_tracked`, a workload's list of
/// restrict containers applies.
pub open spec fn workload_updates(event: ImagePushEvent, by_tracked: bool, ws: Seq<WorkloadView>, idx: int) -> Seq<
    PlannedView,
>
    decreases ws.len(),
{
    if ws.len() == 0 {
        Seq::empty()
    } else {
        let w = ws[0];
        let rest = workload_updates(event, by_tracked, ws.drop_first(), idx + 1);
        let here = match w.annotations {
            Some(a) => if takes_webhooks(a.deep_view()) {
                match w.containers {
                    Some(cs) => container_updates(
                        event,
                        if by_tracked {
                            Some(tracked_images_of(a.deep_view()))
                        } else {
                            None
                        },
                        cs@,
                        idx,
                    ),
                    None => Seq::empty(),
                }
            } else {
                Seq::empty()
            },
            None => Seq::empty(),
        };
        here + rest
    }
}

fn plan_containers(
    event: &ImagePushEvent,
    policy: Option<&ResourcePolicy>,
    cs: &Vec<ContainerInfo>,
    idx: usize,
    out: &mut Vec<PlannedImageUpdate>,
)
    ensures
        final(out)@.map_values(|p: PlannedImageUpdate| p@) == old(out)@.map_values(
            |p: PlannedImageUpdate| p@,
        ) + container_updates(
            *event,
            match policy {
                Some(p) => Some(p.images.deep_view()),
                None => None,
            },
            cs@,
            idx as int,
        ),
{
    let ghost restrict = match policy {
        Some(p) => Some(p.images.deep_view()),
        None => None,
    };
    let ghost start = out@.map_values(|p: PlannedImageUpdate| p@);
    let mut j: usize = 0;
    assert(cs@.skip(0) =~= cs@);
    assert(start + container_updates(*event, restrict, cs@, idx as int) =~= out@.map_values(
        |p: PlannedImageUpdate| p@,
    ) + container_updates(*event, restrict, cs@.skip(0), idx as int));
    while j < cs.len()
        invariant
            j <= cs@.len(),
            restrict == match policy {
                Some(p) => Some(p.images.deep_view()),
                None => None,
            },
            start + container_updates(*event, restrict, cs@, idx as int) == out@.map_values(
                |p: PlannedImageUpdate| p@,
            ) + container_updates(*event, restrict, cs@.skip(j as int), idx as int),
        decreases cs@.len() - j,
    {
        let c = &cs[j];
        let ghost before = out@.map_values(|p: PlannedImageUpdate| p@);
        let ghost tail = container_updates(*event, restrict, cs@.skip(j + 1), idx as int);
        assert(cs@.skip(j as int)[0] == cs@[j as int]);
        assert(cs@.skip(j as int).drop_first() =~= cs@.skip(j + 1));
        let considered = match policy {
            Some(p) => crate::controller::deployment::tracks_container(p, c.name.as_str()),
            None => true,
        };
        match &c.image {
            Some(img) => {
                if considered {
                    let (name, tag) = split_image(img.as_str());
                    if images_match(event.registry.as_str(), event.repository.as_str(), name.as_str())
                        && !str_eq(tag.as_str(), event.tag.as_str()) {
                        let new_image = format_image(
                            event.registry.as_str(),
                            event.repository.as_str(),
                            event.tag.as_str(),
                        );
                        let planned = PlannedImageUpdate {
                            resource: idx,
                            container: c.name.clone(),
                            current_image: img.clone(),
                            image_name: name,
                            new_image,
                        };
                        let ghost pv = planned@;
                        out.push(planned);
                        assert(out@.map_values(|p: PlannedImageUpdate| p@) =~= before.push(pv));
                        assert(before + (seq![pv] + tail) =~= before.push(pv) + tail);
                    }
                }
            },
            None => {},
        }
        j = j + 1;
    }
    assert(cs@.skip(j as int) =~= Seq::<ContainerInfo>::empty());
    assert(out@.map_values(|p: PlannedImageUpdate| p@) + Seq::<PlannedView>::empty() =~= out@.map_values(
        |p: PlannedImageUpdate| p@,
    ));
}

/// The image updates that a push calls for among `workloads` (see
/// `workload_updates`); `by_tracked` applies each workload's list of
/// restrict containers (Deployments do, StatefulSets and DaemonSets not).
pub fn plan_push_updates(event: &ImagePushEvent, workloads: &Vec<WorkloadView>, by_tracked: bool) -> (r: Vec<
    PlannedImageUpdate,
>)
    ensures
        r@.map_values(|p: PlannedImageUpdate| p@) == workload_updates(*event, by_tracked, workloads@, 0),
{
    let mut out: Vec<PlannedImageUpdate> = Vec::new();
    let mut i: usize = 0;
    assert(workloads@.skip(0) =~= workloads@);
    assert(out@.map_values(|p: PlannedImageUpdate| p@) + workload_updates(*event, by_tracked, workloads@, 0)
        =~= workload_updates(*event, by_tracked, workloads@, 0));
    while i < workloads.len()
        invariant
            i <= workloads@.len(),
            workload_updates(*event, by_tracked, workloads@, 0) == out@.map_values(
                |p: PlannedImageUpdate| p@,
            ) + workload_updates(*event, by_tracked, workloads@.skip(i as int), i as int),
        decreases workloads@.len() - i,
    {
        let w = &workloads[i];
        let ghost before = out@.map_values(|p: PlannedImageUpdate| p@);
        let ghost tail = workload_updates(*event, by_tracked, workloads@.skip(i + 1), i + 1);
        assert(workloads@.skip(i as int)[0] == workloads@[i as int]);
        assert(workloads@.skip(i as int).drop_first() =~= workloads@.skip(i + 1));
        match &w.annotations {
            Some(a) => match webhook_policy(a) {
                Some(p) => match &w.containers {
                    Some(cs) => {
                        let ghost here = container_updates(
                            *event,
                            if by_tracked {
                                Some(tracked_images_of(a.deep_view()))
                            } else {
                                None
                            },
                            cs@,
                            i as int,
                        );
                        if by_tracked {
                            plan_containers(event, Some(&p), cs, i, &mut out);
                        } else {
                            plan_containers(event, None, cs, i, &mut out);
                        }
                        assert(before + (here + tail) =~= (before + here) + tail);
                    },
                    None => {
                        assert(before + (Seq::<PlannedView>::empty() + tail) =~= before + tail);
                    },
                },
                None => {
                    assert(before + (Seq::<PlannedView>::empty() + tail) =~= before + tail);
                },
            },
            None => {
                assert(before + (Seq::<PlannedView>::empty() + tail) =~= before + tail);
            },
        }
        i = i + 1;
    }
    assert(workloads@.skip(i as int) =~= Seq::<WorkloadView>::empty());
    assert(out@.map_values(|p: PlannedImageUpdate| p@) + Seq::<PlannedView>::empty() =~= out@.map_values(
        |p: PlannedImageUpdate| p@,
    ));
    out
}

/// Whether a chart push concerns a release using chart `chart_name` from
/// the repository at `repo_url`: the repository address without trailing
/// `/`, a `/` and the chart make the pushed chart's OCI address.
pub fn chart_matches_event(repo_url: &str, chart_name: &str, event: &ChartPushEvent) -> (r: bool)
    ensures
        r == (trim_end_char(repo_url@, '/') + "/"@ + chart_name@ == oci_url_of(
            event.registry@,
            event.repository@,
        )),
{
    let mut expected = owned(trim_end_matches_char(repo_url, '/'));
    expected.append("/");
    expected.append(chart_name);
    let actual = event.base_oci_url();
    str_eq(expected.as_str(), actual.as_str())
}

} // verus!
