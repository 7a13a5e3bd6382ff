//! A source: its liveness flag and the decorator that keeps the flag current.
use std::sync::atomic::{AtomicBool, Ordering};
use std::sync::Arc;
use vstd::prelude::*;

use crate::config;
use crate::config::Named;
use crate::proto::prefixed;

verus! {

/// A running capture stream; dropping it stops the backend.
pub trait SourceStream {}

/// What a source's backend delivers to: each chunk of samples, and each
/// stretch of silence or underrun.
pub trait SourceCallback: Send {
    fn data(&mut self, data: &[i16]);

    fn idle(&mut self);
}

/// The backend kind of a source, as reported to clients.
pub open spec fn source_kind(c: &config::Source) -> &'static str {
    match c {
        config::Source::Pipe(_) => "pipe",
        config::Source::Device(_) => "device",
    }
}

/// A named input and whether it is delivering audio.
pub struct Source {
    kind: &'static str,
    active: Arc<AtomicBool>,
}

/// Wraps a source's callback: raises the source's flag on each chunk before
/// passing it on, lowers it on idle, and lowers it when dropped.
pub struct MonitoringSourceCallback<C: SourceCallback> {
    inner: C,
    active: Arc<AtomicBool>,
}

impl<C: SourceCallback> MonitoringSourceCallback<C> {
    /// The wrapped callback.
    pub closed spec fn inner(&self) -> C {
        self.inner
    }
}

impl Source {
    /// The backend kind of this source.
    pub closed spec fn kind_spec(&self) -> &'static str {
        self.kind
    }

    /// Sets up a source for `config`, not yet active, and wraps `callback`
    /// in the decorator that keeps its flag; the backend is started with the
    /// returned callback.
    pub fn with_config<C: SourceCallback>(config: &Named<config::Source>, callback: C) -> (r: (
        Named<Source>,
        MonitoringSourceCallback<C>,
    ))
        ensures
            r.0.name == config.name,
            r.0.value.kind_spec() == source_kind(&config.value),
            r.1.inner() == callback,
    {
        let kind = match &config.value {
            config::Source::Pipe(_) => "pipe",
            config::Source::Device(_) => "device",
        };
        let active = Arc::new(AtomicBool::new(false));
        let callback = MonitoringSourceCallback { inner: callback, active: active.clone() };
        (config.with(Source { kind, active }), callback)
    }

    /// The backend kind of this source.
    pub fn kind(&self) -> (r: &'static str)
        ensures
            r == self.kind_spec(),
    {
        self.kind
    }

    /// The source's URI as text: its backend kind as the scheme, nothing else.
    pub fn uri_text(&self) -> (r: String)
        ensures
            r@ == self.kind_spec()@ + "://"@,
    {
        prefixed(self.kind, "://")
    }

    /// The source's URI, as `url` parses `uri_text`.
    pub fn uri(&self) -> (r: Option<url::Url>) {
        let text = self.uri_text();
        parse_url(text.as_str())
    }

    /// Whether the source has delivered audio since it last went idle.
    pub fn is_active(&self) -> bool {
        self.active.load(Ordering::Relaxed)
    }
}

impl<C: SourceCallback> SourceCallback for MonitoringSourceCallback<C> {
    fn data(&mut self, data: &[i16]) {
        self.active.store(true, Ordering::Relaxed);
        self.inner.data(data);
    }

    fn idle(&mut self) {
        self.active.store(false, Ordering::Relaxed);
        self.inner.idle();
    }
}

#[verifier::external_type_specification]
#[verifier::external_body]
pub struct ExUrl(url::Url);

/// Relies on `url::Url::parse`: the parsed URL, or `None` where `text` is
/// not one.
#[verifier::external_body]
fn parse_url(text: &str) -> (r: Option<url::Url>) {
    match url::Url::parse(text) {
        Ok(u) => Some(u),
        Err(_) => None,
    }
}

/// Relies on `AtomicBool::store`, which with `Relaxed` ordering neither panics
/// nor waits.
#[verifier::external_body]
fn lower_flag(flag: &AtomicBool)
    opens_invariants none
    no_unwind
{
    flag.store(false, Ordering::Relaxed)
}

impl<C: SourceCallback> Drop for MonitoringSourceCallback<C> {
    fn drop(&mut self)
        opens_invariants none
        no_unwind
    {
        lower_flag(&self.active);
    }
}

} // verus!
