//! The optional tracer provider and the layer that exposes it. The provider
//! itself (batching, export, shutdown) is supplied by the caller; this module
//! decides when one exists and what the layer is.
use vstd::prelude::*;

verus! {

/// Tracing state of the process: off, or on with its provider.
pub enum Telemetry<P> {
    Disabled,
    Enabled(P),
}

/// `t` is what [`Telemetry::start`] gives for `exporter`, whatever the provider.
pub open spec fn started_from<E, P>(exporter: Option<E>, t: Telemetry<P>) -> bool {
    exporter is None <==> t is Disabled
}

/// `l` is what [`Telemetry::layer`] gives for `t`, whatever the layer.
pub open spec fn layer_from<P, L>(t: Telemetry<P>, l: Option<L>) -> bool {
    t is Disabled <==> l is None
}

impl<P> Telemetry<P> {
    /// Starts telemetry: with an exporter, `make` builds the provider around
    /// it; without one, telemetry is disabled and `make` is not called.
    pub fn start<E, F: FnOnce(E) -> P>(exporter: Option<E>, make: F) -> (r: Telemetry<P>)
        requires
            match exporter {
                Some(e) => make.requires((e,)),
                None => true,
            },
        ensures
            started_from(exporter, r),
            match exporter {
                Some(e) => make.ensures((e,), r->Enabled_0),
                None => true,
            },
    {
        match exporter {
            Some(e) => Telemetry::Enabled(make(e)),
            None => Telemetry::Disabled,
        }
    }

    pub open spec fn is_enabled(&self) -> bool {
        self is Enabled
    }

    /// Whether a provider is running.
    pub fn enabled(&self) -> (r: bool)
        ensures
            r == self.is_enabled(),
    {
        match self {
            Telemetry::Enabled(_) => true,
            Telemetry::Disabled => false,
        }
    }

    /// The layer to attach to the tracing registry: `wrap` applied to the
    /// provider, or nothing when telemetry is disabled.
    pub fn layer<L, F: FnOnce(&P) -> L>(&self, wrap: F) -> (r: Option<L>)
        requires
            match self {
                Telemetry::Enabled(p) => wrap.requires((p,)),
                Telemetry::Disabled => true,
            },
        ensures
            layer_from(*self, r),
            match self {
                Telemetry::Enabled(p) => wrap.ensures((p,), r->Some_0),
                Telemetry::Disabled => true,
            },
    {
        match self {
            Telemetry::Enabled(p) => Some(wrap(p)),
            Telemetry::Disabled => None,
        }
    }

    /// Gives up the provider, so that the caller can shut it down.
    pub fn into_provider(self) -> (r: Option<P>)
        ensures
            match self {
                Telemetry::Enabled(p) => r == Some(p),
                Telemetry::Disabled => r is None,
            },
    {
        match self {
            Telemetry::Enabled(p) => Some(p),
            Telemetry::Disabled => None,
        }
    }
}

/// Without an exporter there is no provider, and the layer taken from the
/// resulting state is absent: tracing is off and nothing fails.
pub proof fn lemma_absent_exporter_gives_no_layer<E, P, L>(t: Telemetry<P>, l: Option<L>)
    requires
        started_from(None::<E>, t),
        layer_from(t, l),
    ensures
        t is Disabled,
        l is None,
{
}

} // verus!
