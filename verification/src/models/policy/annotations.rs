//! Annotation keys that Headwind reads on Kubernetes resources.

use vstd::prelude::*;

verus! {

pub const POLICY: &'static str = "headwind.sh/policy";

pub const PATTERN: &'static str = "headwind.sh/pattern";

pub const REQUIRE_APPROVAL: &'static str = "headwind.sh/require-approval";

pub const MIN_UPDATE_INTERVAL: &'static str = "headwind.sh/min-update-interval";

pub const IMAGES: &'static str = "headwind.sh/images";

pub const LAST_UPDATE: &'static str = "headwind.sh/last-update";

pub const EVENT_SOURCE: &'static str = "headwind.sh/event-source";

pub const POLLING_INTERVAL: &'static str = "headwind.sh/polling-interval";

pub const AUTO_ROLLBACK: &'static str = "headwind.sh/auto-rollback";

pub const ROLLBACK_TIMEOUT: &'static str = "headwind.sh/rollback-timeout";

pub const HEALTH_CHECK_RETRIES: &'static str = "headwind.sh/health-check-retries";

} // verus!
