//! The startup description: named sinks and sources, each with its backend.
use std::sync::Arc;
use vstd::prelude::*;

verus! {

/// A value together with the name it is known by.
pub struct Named<T> {
    pub name: Arc<String>,
    pub value: T,
}

impl<T> Named<T> {
    /// The name, as text.
    pub fn name(&self) -> (r: &str)
        ensures
            r@ == (*self.name)@,
    {
        self.name.as_str()
    }

    /// Parts the name from the value.
    pub fn take(self) -> (r: (Named<()>, T))
        ensures
            r.0.name == self.name,
            r.1 == self.value,
    {
        (Named { name: self.name, value: () }, self.value)
    }

    /// The same name, with another value.
    pub fn with<V>(&self, value: V) -> (r: Named<V>)
        ensures
            r.name == self.name,
            r.value == value,
    {
        Named { name: self.name.clone(), value }
    }
}

/// A sink that writes into a named pipe.
pub struct PipeSink {
    pub path: String,
    pub create: bool,
}

/// A sink that plays on an audio device.
pub struct DeviceSink {
    pub device: String,
}

/// How a sink reaches its output.
pub enum Sink {
    Pipe(PipeSink),
    Device(DeviceSink),
}

/// A source that reads from a named pipe.
pub struct PipeSource {
    pub path: String,
    pub create: bool,
}

/// A source that captures from an audio device.
pub struct DeviceSource {
    pub device: String,
}

/// How a source reaches its input.
pub enum Source {
    Pipe(PipeSource),
    Device(DeviceSource),
}

/// All configured sinks and sources.
pub struct Config {
    pub outputs: Vec<Named<Sink>>,
    pub sources: Vec<Named<Source>>,
}

} // verus!
