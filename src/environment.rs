//! The snapshot of the process environment that telemetry configuration is
//! resolved from. Reading the environment itself is the caller's job: this
//! module works on the list of `(name, value)` pairs it read.
use vstd::prelude::*;

use crate::text::{has_prefix, starts_with, str_equal};

verus! {

/// Prefix shared by every telemetry variable.
pub open spec fn telemetry_prefix() -> Seq<char> {
    "OTEL_"@
}

/// Variable selecting the export protocol.
pub open spec fn protocol_var() -> Seq<char> {
    "OTEL_EXPORTER_OTLP_PROTOCOL"@
}

/// Variable holding the collector endpoint URL.
pub open spec fn endpoint_var() -> Seq<char> {
    "OTEL_EXPORTER_OTLP_ENDPOINT"@
}

/// Variable holding the raw header string.
pub open spec fn headers_var() -> Seq<char> {
    "OTEL_EXPORTER_OTLP_HEADERS"@
}

/// Some variable name carries the telemetry prefix.
pub open spec fn any_prefixed(vars: Seq<(Seq<char>, Seq<char>)>) -> bool {
    exists|i: int| 0 <= i < vars.len() && has_prefix(#[trigger] vars[i].0, telemetry_prefix())
}

/// The value of variable `name`; where it occurs more than once, the last wins.
pub open spec fn env_lookup(vars: Seq<(Seq<char>, Seq<char>)>, name: Seq<char>) -> Option<
    Seq<char>,
>
    decreases vars.len(),
{
    if vars.len() == 0 {
        None
    } else if vars.last().0 == name {
        Some(vars.last().1)
    } else {
        env_lookup(vars.drop_last(), name)
    }
}

/// What a telemetry bootstrap needs to know of the environment.
#[derive(Clone, Debug)]
pub struct EnvironmentSnapshot {
    /// Some variable carries the telemetry prefix.
    pub telemetry_requested: bool,
    /// The protocol selector, if set.
    pub protocol: Option<String>,
    /// The collector endpoint URL, if set.
    pub endpoint: Option<String>,
    /// The raw header string, if set.
    pub headers: Option<String>,
}

/// `snap` is the snapshot of the environment `vars`.
pub open spec fn resolves_to(vars: Seq<(Seq<char>, Seq<char>)>, snap: EnvironmentSnapshot) -> bool {
    &&& snap.telemetry_requested == any_prefixed(vars)
    &&& snap.protocol.deep_view() == env_lookup(vars, protocol_var())
    &&& snap.endpoint.deep_view() == env_lookup(vars, endpoint_var())
    &&& snap.headers.deep_view() == env_lookup(vars, headers_var())
}

/// Stores `value` in `slot` when `name` is the variable `wanted`.
fn take_if_named(
    slot: &mut Option<String>,
    name: &String,
    value: &String,
    wanted: &str,
)
    ensures
        final(slot).deep_view() == if name@ == wanted@ {
            Some(value@)
        } else {
            old(slot).deep_view()
        },
{
    if str_equal(name.as_str(), wanted) {
        *slot = Some(value.clone());
    }
}

impl EnvironmentSnapshot {
    /// Takes the snapshot of an environment given as its `(name, value)` pairs.
    pub fn resolve(vars: &Vec<(String, String)>) -> (r: EnvironmentSnapshot)
        ensures
            resolves_to(vars.deep_view(), r),
    {
        let ghost vs = vars.deep_view();
        let mut snap = EnvironmentSnapshot {
            telemetry_requested: false,
            protocol: None,
            endpoint: None,
            headers: None,
        };
        let mut i: usize = 0;
        proof {
            assert(vs.subrange(0, 0) =~= Seq::<(Seq<char>, Seq<char>)>::empty());
        }
        while i < vars.len()
            invariant
                vs == vars.deep_view(),
                i <= vars.len(),
                resolves_to(vs.subrange(0, i as int), snap),
            decreases vars.len() - i,
        {
            let name = &vars[i].0;
            let value = &vars[i].1;
            let ghost prev = vs.subrange(0, i as int);
            let ghost next = vs.subrange(0, i + 1);
            proof {
                assert(vs[i as int] == (name@, value@));
                assert(next.drop_last() =~= prev);
                assert(next.last() == vs[i as int]);
            }
            if starts_with(name.as_str(), "OTEL_") {
                snap.telemetry_requested = true;
                proof {
                    assert(next[i as int] == vs[i as int]);
                }
            }
            proof {
                if !any_prefixed(prev) && any_prefixed(next) {
                    let k = choose|k: int| 0 <= k < next.len() && has_prefix(#[trigger] next[k].0, telemetry_prefix());
                    if k < i {
                        assert(prev[k] == next[k]);
                    }
                }
                if any_prefixed(prev) {
                    let k = choose|k: int| 0 <= k < prev.len() && has_prefix(#[trigger] prev[k].0, telemetry_prefix());
                    assert(next[k] == prev[k]);
                }
            }
            take_if_named(&mut snap.protocol, name, value, "OTEL_EXPORTER_OTLP_PROTOCOL");
            take_if_named(&mut snap.endpoint, name, value, "OTEL_EXPORTER_OTLP_ENDPOINT");
            take_if_named(&mut snap.headers, name, value, "OTEL_EXPORTER_OTLP_HEADERS");
            i += 1;
        }
        proof {
            assert(vs.subrange(0, vars.len() as int) =~= vs);
        }
        snap
    }
}

} // verus!
