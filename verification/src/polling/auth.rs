//! Registry credentials: which registry an image lives in, which entry of
//! a Docker config holds its credentials, and how an entry is read.

use crate::config::{opt_text, utf8_decoding, utf8_text};
use crate::text::{
    contains_char, find_char, first_index_of, owned, slice, str_eq, strip_all_prefix,
    strip_all_prefix_str,
};
use crate::webhook::before_first;
use base64::Engine;
use vstd::prelude::*;

verus! {

/// Credentials for a specific registry
#[derive(Debug, Clone)]
pub struct RegistryCredentials {
    pub registry: String,
    pub username: String,
    pub password: String,
}

/// An entry of the `auths` of a Docker config; absent fields are empty.
#[derive(Debug, Clone)]
pub struct DockerAuthEntry {
    pub auth: String,
    pub username: String,
    pub password: String,
}

/// The registry of an image reference: the part before the first `/` when
/// there is one and that part has a `.` or `:` or is `localhost`; Docker Hub
/// otherwise.
pub open spec fn registry_of_image(image: Seq<char>) -> Seq<char> {
    let first = before_first(image, '/');
    if image.contains('/') && (first.contains('.') || first.contains(':') || first == "localhost"@) {
        first
    } else {
        "docker.io"@
    }
}

/// Extract registry hostname from image reference
pub fn extract_registry_from_image(image: &str) -> (r: String)
    ensures
        r@ == registry_of_image(image@),
{
    match find_char(image, '/') {
        Some(i) => {
            proof {
                crate::text::lemma_first_index_bounds(image@, '/');
                crate::text::lemma_contains_iff_first_index(image@, '/');
            }
            let first = slice(image, 0, i);
            if contains_char(first, '.') || contains_char(first, ':') || str_eq(first, "localhost") {
                owned(first)
            } else {
                owned("docker.io")
            }
        },
        None => {
            proof {
                crate::text::lemma_contains_iff_first_index(image@, '/');
            }
            owned("docker.io")
        },
    }
}

/// A config key without its leading `https://`s, then `http://`s.
pub open spec fn clean_key(key: Seq<char>) -> Seq<char> {
    strip_all_prefix(strip_all_prefix(key, "https://"@), "http://"@)
}

/// Whether a config key names the target registry: the same host once the
/// scheme is dropped, or one of Docker Hub's other names when the target is
/// `docker.io`.
pub open spec fn registry_key_matches(key: Seq<char>, target: Seq<char>) -> bool {
    let k = clean_key(key);
    if k == target {
        true
    } else if target == "docker.io"@ {
        k == "index.docker.io"@ || k == "registry-1.docker.io"@ || k == "index.docker.io/v1/"@ || k
            == "registry-1.docker.io/v1/"@
    } else {
        false
    }
}

/// Check if a registry key matches the target registry
pub fn registry_matches(key: &str, target: &str) -> (r: bool)
    ensures
        r == registry_key_matches(key@, target@),
{
    let k = strip_all_prefix_str(strip_all_prefix_str(key, "https://"), "http://");
    if str_eq(k, target) {
        return true;
    }
    if str_eq(target, "docker.io") {
        return str_eq(k, "index.docker.io") || str_eq(k, "registry-1.docker.io") || str_eq(
            k,
            "index.docker.io/v1/",
        ) || str_eq(k, "registry-1.docker.io/v1/");
    }
    false
}

/// The entry of a `.dockerconfigjson` for `registry`: the one keyed exactly
/// by it, else by it with `https://`, else the first (in the order given)
/// whose key matches it.
pub open spec fn config_entry_index(keys: Seq<Seq<char>>, registry: Seq<char>) -> Option<int> {
    if exists|i: int| 0 <= i < keys.len() && keys[i] == registry {
        Some(choose|i: int| 0 <= i < keys.len() && keys[i] == registry)
    } else if exists|i: int| 0 <= i < keys.len() && keys[i] == "https://"@ + registry {
        Some(choose|i: int| 0 <= i < keys.len() && keys[i] == "https://"@ + registry)
    } else if exists|i: int| 0 <= i < keys.len() && registry_key_matches(keys[i], registry) {
        Some(
            choose|i: int|
                0 <= i < keys.len() && registry_key_matches(keys[i], registry) && forall|j: int|
                    0 <= j < i ==> !registry_key_matches(#[trigger] keys[j], registry),
        )
    } else {
        None
    }
}

/// The keys of the `auths` entries, in order.
pub open spec fn entry_keys(auths: Seq<(String, DockerAuthEntry)>) -> Seq<Seq<char>> {
    auths.map_values(|e: (String, DockerAuthEntry)| e.0@)
}

fn index_of_key(auths: &Vec<(String, DockerAuthEntry)>, key: &str) -> (r: Option<usize>)
    ensures
        match r {
            Some(i) => i < auths@.len() && entry_keys(auths@)[i as int] == key@,
            None => forall|i: int| 0 <= i < auths@.len() ==> entry_keys(auths@)[i] != key@,
        },
{
    let mut i: usize = 0;
    while i < auths.len()
        invariant
            i <= auths@.len(),
            forall|k: int| 0 <= k < i ==> entry_keys(auths@)[k] != key@,
        decreases auths@.len() - i,
    {
        if str_eq(auths[i].0.as_str(), key) {
            return Some(i);
        }
        i = i + 1;
    }
    None
}

/// Finds the entry of a `.dockerconfigjson` for `registry` (see
/// `config_entry_index`); the entries come in the order given.
pub fn find_config_entry(auths: &Vec<(String, DockerAuthEntry)>, registry: &str) -> (r: Option<usize>)
    ensures
        match r {
            Some(i) => i < auths@.len() && (match config_entry_index(entry_keys(auths@), registry@) {
                Some(j) => entry_keys(auths@)[j] == entry_keys(auths@)[i as int] && (j == i
                    || entry_keys(auths@)[j] == registry@ || entry_keys(auths@)[j] == "https://"@
                    + registry@),
                None => false,
            }),
            None => config_entry_index(entry_keys(auths@), registry@) is None,
        },
{
    let ghost keys = entry_keys(auths@);
    match index_of_key(auths, registry) {
        Some(i) => {
            assert(keys[i as int] == registry@);
            return Some(i);
        },
        None => {},
    }
    let mut https = owned("https://");
    https.append(registry);
    match index_of_key(auths, https.as_str()) {
        Some(i) => {
            assert(keys[i as int] == "https://"@ + registry@);
            return Some(i);
        },
        None => {},
    }
    let mut i: usize = 0;
    while i < auths.len()
        invariant
            i <= auths@.len(),
            keys == entry_keys(auths@),
            forall|k: int| 0 <= k < keys.len() ==> keys[k] != registry@,
            forall|k: int| 0 <= k < keys.len() ==> keys[k] != "https://"@ + registry@,
            forall|k: int| 0 <= k < i ==> !registry_key_matches(#[trigger] keys[k], registry@),
        decreases auths@.len() - i,
    {
        if registry_matches(auths[i].0.as_str(), registry) {
            proof {
                assert(registry_key_matches(keys[i as int], registry@));
                let j = choose|j: int|
                    0 <= j < keys.len() && registry_key_matches(keys[j], registry@) && forall|m: int|
                        0 <= m < j ==> !registry_key_matches(#[trigger] keys[m], registry@);
                if j < i {
                } else if j > i {
                    assert(!registry_key_matches(keys[i as int], registry@));
                }
            }
            return Some(i);
        }
        i = i + 1;
    }
    None
}

/// What `base64`'s standard engine decodes `bytes` to, `None` when it
/// refuses them.
pub uninterp spec fn base64_decoding(bytes: Seq<u8>) -> Option<Seq<u8>>;

/// Calls `base64::prelude::BASE64_STANDARD.decode`; only its being a
/// function of the bytes is stated.
#[verifier::external_body]
fn base64_decode(bytes: &[u8]) -> (r: Option<Vec<u8>>)
    ensures
        match r {
            Some(v) => base64_decoding(bytes@) == Some(v@),
            None => base64_decoding(bytes@) is None,
        },
{
    match base64::prelude::BASE64_STANDARD.decode(bytes) {
        Ok(v) => Some(v),
        Err(_) => None,
    }
}

/// Why an auth entry could not be read.
#[derive(Debug, Clone, Copy, PartialEq, Eq, Structural)]
pub enum AuthEntryError {
    /// The token is not base64
    InvalidToken,
    /// The decoded token is not UTF-8
    InvalidUtf8,
}

/// The credentials an entry gives for `registry`: its user name and
/// password when both are set; else those in its token (base64 of
/// `user:password`, split at the first `:`); else none.
pub open spec fn entry_credentials(e: DockerAuthEntry) -> Result<Option<(Seq<char>, Seq<char>)>, AuthEntryError> {
    if e.username@.len() > 0 && e.password@.len() > 0 {
        Ok(Some((e.username@, e.password@)))
    } else if e.auth@.len() > 0 {
        match base64_decoding(vstd::utf8::encode_utf8(e.auth@)) {
            None => Err(AuthEntryError::InvalidToken),
            Some(bytes) => match utf8_decoding(bytes) {
                None => Err(AuthEntryError::InvalidUtf8),
                Some(text) => {
                    let i = first_index_of(text, ':');
                    if i < 0 {
                        Ok(None)
                    } else {
                        Ok(Some((text.take(i), text.skip(i + 1))))
                    }
                },
            },
        }
    } else {
        Ok(None)
    }
}

/// Parse an auth entry and extract credentials
pub fn parse_auth_entry(entry: &DockerAuthEntry, registry: &str) -> (r: Result<
    Option<RegistryCredentials>,
    AuthEntryError,
>)
    ensures
        match entry_credentials(*entry) {
            Ok(Some((u, p))) => r matches Ok(Some(c)) && c.registry@ == registry@ && c.username@ == u
                && c.password@ == p,
            Ok(None) => r matches Ok(None),
            Err(e) => r == Err::<Option<RegistryCredentials>, AuthEntryError>(e),
        },
{
    if entry.username.as_str().unicode_len() > 0 && entry.password.as_str().unicode_len() > 0 {
        return Ok(
            Some(
                RegistryCredentials {
                    registry: owned(registry),
                    username: entry.username.clone(),
                    password: entry.password.clone(),
                },
            ),
        );
    }
    if entry.auth.as_str().unicode_len() > 0 {
        let decoded = match base64_decode(entry.auth.as_str().as_bytes()) {
            Some(d) => d,
            None => return Err(AuthEntryError::InvalidToken),
        };
        let text = match utf8_text(decoded.as_slice()) {
            Some(t) => t,
            None => return Err(AuthEntryError::InvalidUtf8),
        };
        let t = text.as_str();
        match find_char(t, ':') {
            Some(i) => {
                proof {
                    crate::text::lemma_first_index_bounds(t@, ':');
                }
                let n = t.unicode_len();
                let user = slice(t, 0, i);
                let pass = slice(t, i + 1, n);
                assert(user@ =~= t@.take(i as int));
                assert(pass@ =~= t@.skip(i + 1));
                return Ok(
                    Some(
                        RegistryCredentials {
                            registry: owned(registry),
                            username: owned(user),
                            password: owned(pass),
                        },
                    ),
                );
            },
            None => return Ok(None),
        }
    }
    Ok(None)
}

} // verus!
