//! Which metrics backend the dashboard reads from.

use crate::text::{owned, str_eq};
use vstd::prelude::*;

verus! {

/// A metrics backend.
#[derive(Debug, Clone)]
pub enum MetricsBackend {
    Prometheus { url: String },
    VictoriaMetrics { url: String },
    InfluxDB { url: String, database: String },
    Live,
}

/// A backend with what is needed to reach it.
#[derive(Debug, Clone)]
pub enum BackendTarget {
    Prometheus(String),
    VictoriaMetrics(String),
    /// Address, organisation, bucket and token
    InfluxDb(String, String, String, String),
    /// The operator's own metrics endpoint
    Live(String),
}

/// How the metrics client is chosen.
#[derive(Debug, Clone)]
pub enum BackendPlan {
    /// Use this backend
    Use(BackendTarget),
    /// Probe these backends in order and use the first that answers; the
    /// live metrics otherwise
    Probe(Vec<BackendTarget>),
}

/// The address of the operator's own metrics.
pub const LIVE_METRICS_URL: &'static str = "http://localhost:9090/metrics";

/// The settings of the metrics backends.
#[derive(Debug, Clone)]
pub struct BackendSettings {
    pub prometheus_url: Option<String>,
    pub prometheus_enabled: bool,
    pub victoriametrics_url: Option<String>,
    pub victoriametrics_enabled: bool,
    pub influxdb_url: Option<String>,
    pub influxdb_enabled: bool,
    pub influxdb_org: Option<String>,
    pub influxdb_bucket: Option<String>,
    pub influxdb_token: Option<String>,
}

/// A target as characters: which backend (0 Prometheus, 1
/// VictoriaMetrics, 2 InfluxDB, 3 live) and its texts.
pub open spec fn target_view(t: BackendTarget) -> (int, Seq<Seq<char>>) {
    match t {
        BackendTarget::Prometheus(u) => (0, seq![u@]),
        BackendTarget::VictoriaMetrics(u) => (1, seq![u@]),
        BackendTarget::InfluxDb(u, o, b, k) => (2, seq![u@, o@, b@, k@]),
        BackendTarget::Live(u) => (3, seq![u@]),
    }
}

/// The text of `o`, or `d`.
pub open spec fn or_text(o: Option<String>, d: Seq<char>) -> Seq<char> {
    match o {
        Some(s) => s@,
        None => d,
    }
}

/// The candidates that auto-discovery probes, in order: each enabled
/// backend whose settings are complete.
pub open spec fn probe_order(s: BackendSettings) -> Seq<(int, Seq<Seq<char>>)> {
    let p = match s.prometheus_url {
        Some(u) => if s.prometheus_enabled {
            seq![(0int, seq![u@])]
        } else {
            Seq::empty()
        },
        None => Seq::empty(),
    };
    let v = match s.victoriametrics_url {
        Some(u) => if s.victoriametrics_enabled {
            seq![(1int, seq![u@])]
        } else {
            Seq::empty()
        },
        None => Seq::empty(),
    };
    let i = if s.influxdb_enabled && s.influxdb_url is Some && s.influxdb_org is Some
        && s.influxdb_bucket is Some && s.influxdb_token is Some {
        seq![
            (
                2int,
                seq![
                    s.influxdb_url->0@,
                    s.influxdb_org->0@,
                    s.influxdb_bucket->0@,
                    s.influxdb_token->0@,
                ],
            ),
        ]
    } else {
        Seq::empty()
    };
    p + v + i
}

fn text_or(o: &Option<String>, d: &str) -> (r: String)
    ensures
        r@ == or_text(*o, d@),
{
    match o {
        Some(s) => s.clone(),
        None => owned(d),
    }
}

/// Chooses the metrics backend for `backend_type`: `auto` probes the
/// enabled backends (see `probe_order`); `prometheus`, `victoriametrics`
/// and `influxdb` use that backend (with the default addresses and
/// credentials where unset); anything else uses the live metrics.
pub fn metrics_backend_plan(backend_type: &str, s: &BackendSettings) -> (r: BackendPlan)
    ensures
        backend_type@ == "auto"@ ==> (r matches BackendPlan::Probe(v) && v@.map_values(
            |t: BackendTarget| target_view(t),
        ) == probe_order(*s)),
        backend_type@ == "prometheus"@ ==> (r matches BackendPlan::Use(t) && target_view(t) == (
            0int,
            seq![or_text(s.prometheus_url, crate::config::DEFAULT_PROMETHEUS_URL@)],
        )),
        backend_type@ == "victoriametrics"@ ==> (r matches BackendPlan::Use(t) && target_view(t) == (
            1int,
            seq![or_text(s.victoriametrics_url, crate::config::DEFAULT_VICTORIAMETRICS_URL@)],
        )),
        backend_type@ == "influxdb"@ ==> (r matches BackendPlan::Use(t) && target_view(t) == (
            2int,
            seq![
                or_text(s.influxdb_url, crate::config::DEFAULT_INFLUXDB_URL@),
                or_text(s.influxdb_org, crate::config::DEFAULT_INFLUXDB_ORG@),
                or_text(s.influxdb_bucket, crate::config::DEFAULT_INFLUXDB_BUCKET@),
                or_text(s.influxdb_token, crate::config::DEFAULT_INFLUXDB_TOKEN@),
            ],
        )),
        backend_type@ != "auto"@ && backend_type@ != "prometheus"@ && backend_type@
            != "victoriametrics"@ && backend_type@ != "influxdb"@ ==> (r matches BackendPlan::Use(t)
            && target_view(t) == (3int, seq![LIVE_METRICS_URL@])),
{
    proof {
        reveal_strlit("auto");
        reveal_strlit("prometheus");
        reveal_strlit("victoriametrics");
        reveal_strlit("influxdb");
        assert("auto"@.len() != "prometheus"@.len());
        assert("auto"@.len() != "victoriametrics"@.len());
        assert("auto"@.len() != "influxdb"@.len());
        assert("prometheus"@.len() != "victoriametrics"@.len());
        assert("prometheus"@.len() != "influxdb"@.len());
        assert("victoriametrics"@.len() != "influxdb"@.len());
    }
    if str_eq(backend_type, "auto") {
        let mut v: Vec<BackendTarget> = Vec::new();
        let ghost start = v@.map_values(|t: BackendTarget| target_view(t));
        assert(start =~= Seq::<(int, Seq<Seq<char>>)>::empty());
        if s.prometheus_enabled {
            match &s.prometheus_url {
                Some(u) => v.push(BackendTarget::Prometheus(u.clone())),
                None => {},
            }
        }
        let ghost after_p = v@.map_values(|t: BackendTarget| target_view(t));
        if s.victoriametrics_enabled {
            match &s.victoriametrics_url {
                Some(u) => v.push(BackendTarget::VictoriaMetrics(u.clone())),
                None => {},
            }
        }
        let ghost after_v = v@.map_values(|t: BackendTarget| target_view(t));
        if s.influxdb_enabled {
            match (&s.influxdb_url, &s.influxdb_org, &s.influxdb_bucket, &s.influxdb_token) {
                (Some(u), Some(o), Some(b), Some(k)) => {
                    v.push(BackendTarget::InfluxDb(u.clone(), o.clone(), b.clone(), k.clone()))
                },
                _ => {},
            }
        }
        let ghost p = match &s.prometheus_url {
            Some(u) => if s.prometheus_enabled {
                seq![(0int, seq![u@])]
            } else {
                Seq::empty()
            },
            None => Seq::empty(),
        };
        let ghost vm = match &s.victoriametrics_url {
            Some(u) => if s.victoriametrics_enabled {
                seq![(1int, seq![u@])]
            } else {
                Seq::empty()
            },
            None => Seq::empty(),
        };
        assert(after_p =~= p);
        assert(after_v =~= p + vm);
        assert(v@.map_values(|t: BackendTarget| target_view(t)) =~= probe_order(*s));
        BackendPlan::Probe(v)
    } else if str_eq(backend_type, "prometheus") {
        BackendPlan::Use(
            BackendTarget::Prometheus(text_or(&s.prometheus_url, crate::config::DEFAULT_PROMETHEUS_URL)),
        )
    } else if str_eq(backend_type, "victoriametrics") {
        BackendPlan::Use(
            BackendTarget::VictoriaMetrics(
                text_or(&s.victoriametrics_url, crate::config::DEFAULT_VICTORIAMETRICS_URL),
            ),
        )
    } else if str_eq(backend_type, "influxdb") {
        BackendPlan::Use(
            BackendTarget::InfluxDb(
                text_or(&s.influxdb_url, crate::config::DEFAULT_INFLUXDB_URL),
                text_or(&s.influxdb_org, crate::config::DEFAULT_INFLUXDB_ORG),
                text_or(&s.influxdb_bucket, crate::config::DEFAULT_INFLUXDB_BUCKET),
                text_or(&s.influxdb_token, crate::config::DEFAULT_INFLUXDB_TOKEN),
            ),
        )
    } else {
        BackendPlan::Use(BackendTarget::Live(owned(LIVE_METRICS_URL)))
    }
}

} // verus!
