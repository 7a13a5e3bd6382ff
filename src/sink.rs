//! A sink: its gain pipeline, its switcher and the controls of its sources.
use std::sync::Arc;
use vstd::prelude::*;
use vstd::string::StringSliceAdditionalSpecFns;

use crate::config;
use crate::config::Named;
use crate::gain::{
    apply_gain, gained, lemma_full_volume_is_identity, lemma_muted_is_silence, MAX_VOLUME,
};
use crate::ring::{consumed, produced, ring_capacity, sample_ring, vacancy, RingConsumer, RingProducer};
use crate::proto::{unknown_text, Entity, ResponseError, INVALID_PARAMS};
use crate::switcher::{Control, Port, Switcher};

verus! {

/// Samples of the ring between a sink and its backend: two seconds at 48 kHz.
pub const RING_CAPACITY: usize = 96000;

/// Samples of silence put into a new ring, to absorb the backend's start-up.
pub const PREFILL: usize = 128;

/// How many of `len` samples fit into `room` free places.
pub open spec fn accepted(len: nat, room: nat) -> nat {
    if len <= room {
        len
    } else {
        room
    }
}

/// The producer half of a sink's ring; what it sends passes through the
/// sink's mute and volume.
pub struct Sender {
    tx: RingProducer,
}

impl Sender {
    /// The ring producer this sender pushes into.
    pub closed spec fn producer(&self) -> RingProducer {
        self.tx
    }

    /// A sender that pushes into `tx`.
    pub fn new(tx: RingProducer) -> (r: Sender)
        ensures
            r.producer() == tx,
    {
        Sender { tx }
    }

    /// Pushes `data` after the given mute and volume, dropping what does not
    /// fit, and publishes it to the consumer in one step.
    pub fn send(&mut self, data: &[i16], muted: bool, volume: u8)
        ensures
            produced(final(self).producer()) == after_send(
                produced(old(self).producer()),
                data@,
                muted,
                volume,
                vacancy(old(self).producer()),
            ),
            vacancy(final(self).producer()) >= vacancy(old(self).producer()) - accepted(
                data@.len(),
                vacancy(old(self).producer()),
            ),
            ring_capacity(final(self).producer()) == ring_capacity(old(self).producer()),
    {
        let samples = apply_gain(data, muted, volume);
        self.tx.push_all(samples.as_slice());
        self.tx.sync();
    }
}

/// What a send leaves behind: the samples that were there, then as many of
/// the chunk's gained samples as found room.
pub open spec fn after_send(
    before: Seq<i16>,
    data: Seq<i16>,
    muted: bool,
    volume: u8,
    room: nat,
) -> Seq<i16> {
    before + gained(data, muted, volume).take(accepted(data.len(), room) as int)
}

/// A muted send adds only silence, whatever the volume and the input.
pub proof fn lemma_muted_send_is_silence(before: Seq<i16>, data: Seq<i16>, volume: u8, room: nat)
    ensures
        forall|i: int|
            before.len() <= i < after_send(before, data, true, volume, room).len()
                ==> #[trigger] after_send(before, data, true, volume, room)[i] == 0,
{
    lemma_muted_is_silence(data, volume);
    let after = after_send(before, data, true, volume, room);
    assert forall|i: int| before.len() <= i < after.len() implies #[trigger] after[i] == 0 by {
        assert(after[i] == gained(data, true, volume)[i - before.len()]);
    }
}

/// An unmuted send at full volume adds the chunk itself, up to the room the
/// ring had.
pub proof fn lemma_full_volume_send_is_identity(before: Seq<i16>, data: Seq<i16>, room: nat)
    ensures
        after_send(before, data, false, MAX_VOLUME, room) == before + data.take(
            accepted(data.len(), room) as int,
        ),
{
    lemma_full_volume_is_identity(data);
}

/// A running playback stream; dropping it stops the backend.
pub trait SinkStream {}

/// The backend kind of a sink, as reported to clients.
pub open spec fn sink_kind(c: &config::Sink) -> &'static str {
    match c {
        config::Sink::Pipe(_) => "pipe",
        config::Sink::Device(_) => "device",
    }
}

/// A named output: its switcher routes the one `Sender` to the source that
/// feeds it, and it keeps one control per known source.
pub struct Sink {
    pub kind: &'static str,
    muted: bool,
    volume: u8,
    switcher: Switcher<Sender>,
    sources: Vec<(Arc<String>, Control)>,
}

impl Sink {
    /// The backend kind of this sink.
    pub closed spec fn kind_spec(&self) -> &'static str {
        self.kind
    }

    /// Whether the sink is muted.
    pub closed spec fn muted_view(&self) -> bool {
        self.muted
    }

    /// The sink's volume.
    pub closed spec fn volume_view(&self) -> u8 {
        self.volume
    }

    /// The switcher that routes this sink's sender.
    pub closed spec fn switcher(&self) -> Switcher<Sender> {
        self.switcher
    }

    /// The names of the known sources, in the order they were added.
    pub closed spec fn source_names(&self) -> Seq<Seq<char>> {
        self.sources@.map_values(|e: (Arc<String>, Control)| (*e.0)@)
    }

    /// The control of each known source, in the same order.
    pub closed spec fn source_controls(&self) -> Seq<Control> {
        self.sources@.map_values(|e: (Arc<String>, Control)| e.1)
    }

    /// Whether a source of this name is known.
    pub open spec fn has_source(&self, name: Seq<char>) -> bool {
        exists|i: int| 0 <= i < self.source_names().len() && #[trigger] self.source_names()[i] == name
    }

    /// Whether a known source's control is the active one.
    pub open spec fn entry_active(&self, i: int) -> bool {
        self.switcher().active() == Some(self.source_controls()[i].slot())
    }

    /// Each source is known once, under its own slot of the switcher.
    pub open spec fn wf(&self) -> bool {
        &&& self.switcher().wf()
        &&& self.source_names().len() == self.source_controls().len()
        &&& forall|i: int, j: int|
            0 <= i < j < self.source_names().len() ==> #[trigger] self.source_names()[i]
                != #[trigger] self.source_names()[j]
        &&& forall|i: int, j: int|
            0 <= i < j < self.source_controls().len() ==> #[trigger] self.source_controls()[i].slot()
                != #[trigger] self.source_controls()[j].slot()
        &&& forall|i: int|
            0 <= i < self.source_controls().len() ==> #[trigger] self.source_controls()[i].slot()
                < self.switcher().num_slots()
    }

    /// Sets up a sink for `config`: a ring of `RING_CAPACITY` samples that
    /// starts with `PREFILL` samples of silence, and a switcher that holds the
    /// sender of its producer half, with no source active yet. The consumer
    /// half is returned for the backend to drain.
    pub fn with_config(config: &Named<config::Sink>) -> (r: (Named<Sink>, RingConsumer))
        ensures
            r.0.name == config.name,
            r.0.value.wf(),
            r.0.value.kind_spec() == sink_kind(&config.value),
            r.0.value.source_names().len() == 0,
            r.0.value.switcher().active() is None,
            r.0.value.switcher().num_slots() == 0,
            !r.0.value.muted_view(),
            r.0.value.volume_view() == MAX_VOLUME,
            produced(r.0.value.switcher().payload().producer()) == Seq::new(
                PREFILL as nat,
                |i: int| 0i16,
            ),
            vacancy(r.0.value.switcher().payload().producer()) >= RING_CAPACITY - PREFILL,
            vacancy(r.0.value.switcher().payload().producer()) <= RING_CAPACITY,
            ring_capacity(r.0.value.switcher().payload().producer()) == RING_CAPACITY,
            consumed(r.1) == Seq::<i16>::empty(),
    {
        let kind = match &config.value {
            config::Sink::Pipe(_) => "pipe",
            config::Sink::Device(_) => "device",
        };
        let (mut tx, rx) = sample_ring(RING_CAPACITY);
        let silence: Vec<i16> = vec![0i16; PREFILL];
        tx.push_all(silence.as_slice());
        tx.sync();
        proof {
            assert(silence@.take(PREFILL as int) =~= Seq::new(PREFILL as nat, |i: int| 0i16));
            assert(Seq::<i16>::empty() + silence@.take(PREFILL as int) =~= silence@.take(
                PREFILL as int,
            ));
        }
        let muted = false;
        let volume = MAX_VOLUME;
        let sender = Sender::new(tx);
        let switcher = Switcher::new(sender);
        let sink = Sink { kind, muted, volume, switcher, sources: Vec::new() };
        proof {
            assert(sink.source_names() =~= Seq::<Seq<char>>::empty());
            assert(sink.source_controls() =~= Seq::<Control>::empty());
        }
        (config.with(sink), rx)
    }

    /// How many slots the sink's switcher has registered.
    pub fn slot_count(&self) -> (r: usize)
        ensures
            r == self.switcher().num_slots(),
    {
        self.switcher.slot_count()
    }

    /// Whether the sink is muted.
    pub fn muted(&self) -> (r: bool)
        ensures
            r == self.muted_view(),
    {
        self.muted
    }

    /// The sink's volume, 0 to 255.
    pub fn volume(&self) -> (r: u8)
        ensures
            r == self.volume_view(),
    {
        self.volume
    }

    /// Mutes or unmutes the sink, from the next sample on.
    pub fn set_muted(&mut self, muted: bool)
        requires
            old(self).wf(),
        ensures
            final(self).wf(),
            final(self).switcher() == old(self).switcher(),
            final(self).source_names() == old(self).source_names(),
            final(self).source_controls() == old(self).source_controls(),
            final(self).muted_view() == muted,
            final(self).volume_view() == old(self).volume_view(),
    {
        self.muted = muted;
    }

    /// Sets the sink's volume, from the next sample on.
    pub fn set_volume(&mut self, volume: u8)
        requires
            old(self).wf(),
        ensures
            final(self).wf(),
            final(self).switcher() == old(self).switcher(),
            final(self).source_names() == old(self).source_names(),
            final(self).source_controls() == old(self).source_controls(),
            final(self).muted_view() == old(self).muted_view(),
            final(self).volume_view() == volume,
    {
        self.volume = volume;
    }

    /// Position of the entry for `name`.
    fn find(&self, name: &str) -> (r: Option<usize>)
        requires
            self.wf(),
        ensures
            r is Some <==> self.has_source(name@),
            r is Some ==> r->0 < self.source_names().len() && self.source_names()[r->0 as int]
                == name@,
    {
        let mut i: usize = 0;
        while i < self.sources.len()
            invariant
                i <= self.sources@.len(),
                self.source_names().len() == self.sources@.len(),
                forall|j: int| 0 <= j < i ==> #[trigger] self.source_names()[j] != name@,
            decreases self.sources@.len() - i,
        {
            let entry_name: &str = self.sources[i].0.as_str();
            proof {
                assert(self.source_names()[i as int] == entry_name@);
            }
            if str_eq(entry_name, name) {
                return Some(i);
            }
            i += 1;
        }
        None
    }

    /// The control of the source called `name`, if it is known.
    pub fn get_source(&self, name: &Arc<String>) -> (r: Option<&Control>)
        requires
            self.wf(),
        ensures
            r is Some <==> self.has_source((**name)@),
            r is Some ==> exists|i: int|
                0 <= i < self.source_names().len() && #[trigger] self.source_names()[i]
                    == (**name)@ && self.source_controls()[i] == *r->0,
    {
        match self.find(name.as_str()) {
            Some(i) => {
                proof {
                    assert(self.source_controls()[i as int] == self.sources@[i as int].1);
                }
                Some(&self.sources[i].1)
            },
            None => None,
        }
    }

    /// The name and control of the source that feeds this sink, if any.
    pub fn get_active_source(&self) -> (r: Option<(Arc<String>, &Control)>)
        requires
            self.wf(),
        ensures
            r is Some ==> exists|i: int|
                0 <= i < self.source_names().len() && #[trigger] self.source_names()[i]
                    == (*(r->0).0)@ && self.source_controls()[i] == *(r->0).1 && self.entry_active(i),
            r is None ==> forall|i: int|
                0 <= i < self.source_controls().len() ==> !#[trigger] self.entry_active(i),
    {
        let mut i: usize = 0;
        while i < self.sources.len()
            invariant
                i <= self.sources@.len(),
                self.source_controls().len() == self.sources@.len(),
                forall|j: int| 0 <= j < i ==> !#[trigger] self.entry_active(j),
            decreases self.sources@.len() - i,
        {
            let control = &self.sources[i].1;
            if control.is_active(&self.switcher) {
                proof {
                    assert(self.source_controls()[i as int] == self.sources@[i as int].1);
                    assert(self.source_names()[i as int] == (*self.sources@[i as int].0)@);
                }
                return Some((self.sources[i].0.clone(), control));
            }
            proof {
                assert(self.source_controls()[i as int] == self.sources@[i as int].1);
            }
            i += 1;
        }
        None
    }

    /// Registers a slot for the source called `name` and returns the port its
    /// broadcaster delivers through. A name already known gets the new slot.
    pub fn add_source(&mut self, name: Arc<String>) -> (r: Port)
        requires
            old(self).wf(),
            old(self).switcher().num_slots() < usize::MAX,
        ensures
            final(self).muted_view() == old(self).muted_view(),
            final(self).volume_view() == old(self).volume_view(),
            final(self).wf(),
            final(self).has_source((*name)@),
            r.slot() == old(self).switcher().num_slots(),
            final(self).switcher().num_slots() == old(self).switcher().num_slots() + 1,
            final(self).switcher().active() == old(self).switcher().active(),
            final(self).switcher().payload() == old(self).switcher().payload(),
            forall|i: int|
                0 <= i < final(self).source_names().len() && #[trigger] final(self).source_names()[i]
                    == (*name)@ ==> final(self).source_controls()[i].slot() == r.slot(),
            forall|n: Seq<char>| n != (*name)@ ==> (#[trigger] final(self).has_source(n)
                <==> old(self).has_source(n)),
            forall|i: int|
                0 <= i < old(self).source_names().len() && #[trigger] old(self).source_names()[i]
                    != (*name)@ ==> final(self).source_names()[i] == old(self).source_names()[i]
                    && final(self).source_controls()[i] == old(self).source_controls()[i],
            old(self).has_source((*name)@) ==> final(self).source_names() == old(
                self,
            ).source_names(),
            !old(self).has_source((*name)@) ==> final(self).source_names() == old(
                self,
            ).source_names().push((*name)@),
            !old(self).has_source((*name)@) ==> final(self).source_controls().len()
                == old(self).source_controls().len() + 1,
            forall|i: int|
                0 <= i < old(self).source_names().len() && old(self).source_names()[i] != (*name)@
                    ==> (#[trigger] final(self).entry_active(i) == old(self).entry_active(i)),
            forall|i: int|
                0 <= i < final(self).source_names().len() && final(self).source_names()[i]
                    == (*name)@ ==> !#[trigger] final(self).entry_active(i),
    {
        let (port, control) = self.switcher.port();
        match self.find(name.as_str()) {
            Some(i) => {
                self.sources.set(i, (name, control));
                proof {
                    assert(self.source_names() =~= old(self).source_names().update(i as int, (*name)@));
                    assert(self.source_controls() =~= old(self).source_controls().update(i as int, control));
                    assert forall|k: int| 0 <= k < self.source_controls().len() implies
                        #[trigger] self.source_controls()[k].slot() < self.switcher().num_slots() by {
                        if k != i {
                            assert(self.source_controls()[k] == old(self).source_controls()[k]);
                        }
                    }
                    assert(self.source_names()[i as int] == (*name)@);
                    assert forall|n: Seq<char>| n != (*name)@ implies (#[trigger] self.has_source(n)
                        <==> old(self).has_source(n)) by {
                        if old(self).has_source(n) {
                            let k = choose|k: int| 0 <= k < old(self).source_names().len() && #[trigger] old(self).source_names()[k] == n;
                            assert(self.source_names()[k] == n);
                        }
                        if self.has_source(n) {
                            let k = choose|k: int| 0 <= k < self.source_names().len() && #[trigger] self.source_names()[k] == n;
                            assert(old(self).source_names()[k] == n);
                        }
                    }
                }
            },
            None => {
                self.sources.push((name, control));
                proof {
                    let m = old(self).source_names().len() as int;
                    assert(self.source_names() =~= old(self).source_names().push((*name)@));
                    assert(self.source_controls() =~= old(self).source_controls().push(control));
                    assert(self.source_names()[m] == (*name)@);
                    assert forall|n: Seq<char>| n != (*name)@ implies (#[trigger] self.has_source(n)
                        <==> old(self).has_source(n)) by {
                        if old(self).has_source(n) {
                            let k = choose|k: int| 0 <= k < old(self).source_names().len() && #[trigger] old(self).source_names()[k] == n;
                            assert(self.source_names()[k] == n);
                        }
                        if self.has_source(n) {
                            let k = choose|k: int| 0 <= k < self.source_names().len() && #[trigger] self.source_names()[k] == n;
                            assert(k != m);
                            assert(old(self).source_names()[k] == n);
                        }
                    }
                }
            },
        }
        port
    }

    /// Makes the source called `name` the one that feeds this sink. Returns
    /// whether the name is known; nothing changes when it is not.
    pub fn switch_source(&mut self, name: &Arc<String>) -> (r: bool)
        requires
            old(self).wf(),
        ensures
            final(self).muted_view() == old(self).muted_view(),
            final(self).volume_view() == old(self).volume_view(),
            final(self).wf(),
            r == old(self).has_source((**name)@),
            final(self).source_names() == old(self).source_names(),
            final(self).source_controls() == old(self).source_controls(),
            final(self).switcher().payload() == old(self).switcher().payload(),
            r ==> forall|i: int|
                0 <= i < final(self).source_names().len() ==> (#[trigger] final(self).entry_active(i)
                    <==> final(self).source_names()[i] == (**name)@),
            !r ==> final(self).switcher() == old(self).switcher(),
    {
        match self.find(name.as_str()) {
            Some(i) => {
                let control = self.sources[i].1;
                proof {
                    assert(old(self).source_controls()[i as int] == control);
                }
                control.switch(&mut self.switcher);
                proof {
                    assert forall|k: int| 0 <= k < self.source_names().len() implies (
                        #[trigger] self.entry_active(k) <==> self.source_names()[k] == (**name)@) by {
                        if k != i {
                            assert(self.source_controls()[k].slot() != control.slot());
                        }
                    }
                }
                true
            },
            None => false,
        }
    }

    /// Routes the source called `stream_id` to this sink, or reports the id
    /// as an unknown stream and changes nothing.
    pub fn select_stream(&mut self, stream_id: &Arc<String>) -> (r: Result<(), ResponseError>)
        requires
            old(self).wf(),
        ensures
            final(self).muted_view() == old(self).muted_view(),
            final(self).volume_view() == old(self).volume_view(),
            final(self).wf(),
            r is Ok <==> old(self).has_source((**stream_id)@),
            r is Ok ==> forall|i: int|
                0 <= i < final(self).source_names().len() ==> (#[trigger] final(self).entry_active(i)
                    <==> final(self).source_names()[i] == (**stream_id)@),
            r is Err ==> final(self).switcher() == old(self).switcher(),
            r is Err ==> r->Err_0.code == INVALID_PARAMS && r->Err_0.message@ == "Invalid parameter: "@
                + unknown_text(Entity::Stream) + (**stream_id)@,
            final(self).source_names() == old(self).source_names(),
            final(self).source_controls() == old(self).source_controls(),
    {
        if self.switch_source(stream_id) {
            Ok(())
        } else {
            Err(ResponseError::unknown(Entity::Stream, stream_id.as_str()))
        }
    }

    /// Delivers a chunk through `port`: when its slot holds the sender, the
    /// chunk goes to `Sender::send`; otherwise it is dropped and nothing changes.
    pub fn deliver(&mut self, port: &Port, data: &[i16]) -> (r: bool)
        requires
            old(self).wf(),
        ensures
            final(self).muted_view() == old(self).muted_view(),
            final(self).volume_view() == old(self).volume_view(),
            final(self).wf(),
            r == (old(self).switcher().active() == Some(port.slot())),
            final(self).switcher().active() == old(self).switcher().active(),
            final(self).source_names() == old(self).source_names(),
            final(self).source_controls() == old(self).source_controls(),
            !r ==> final(self).switcher() == old(self).switcher(),
            r ==> produced(final(self).switcher().payload().producer()) == after_send(
                produced(old(self).switcher().payload().producer()),
                data@,
                old(self).muted_view(),
                old(self).volume_view(),
                vacancy(old(self).switcher().payload().producer()),
            ),
            ring_capacity(final(self).switcher().payload().producer()) == ring_capacity(
                old(self).switcher().payload().producer(),
            ),
    {
        let muted = self.muted;
        let volume = self.volume;
        match port.access(&mut self.switcher) {
            Some(sender) => {
                sender.send(data, muted, volume);
                true
            },
            None => false,
        }
    }
}

proof fn lemma_bytes_eq(a: &str, b: &str)
    ensures
        (a.spec_bytes() == b.spec_bytes()) == (a@ == b@),
{
    vstd::utf8::encode_utf8_decode_utf8(a@);
    vstd::utf8::encode_utf8_decode_utf8(b@);
}

/// Whether two strings hold the same characters.
pub fn str_eq(a: &str, b: &str) -> (r: bool)
    ensures
        r == (a@ == b@),
{
    let ab = a.as_bytes();
    let bb = b.as_bytes();
    if ab.len() != bb.len() {
        proof { lemma_bytes_eq(a, b); }
        return false;
    }
    let mut i: usize = 0;
    while i < ab.len()
        invariant
            ab@ == a.spec_bytes(),
            bb@ == b.spec_bytes(),
            ab@.len() == bb@.len(),
            i <= ab@.len(),
            forall|j: int| 0 <= j < i ==> ab@[j] == bb@[j],
        decreases ab@.len() - i,
    {
        if ab[i] != bb[i] {
            proof { lemma_bytes_eq(a, b); }
            return false;
        }
        i += 1;
    }
    proof {
        assert(ab@ =~= bb@);
        lemma_bytes_eq(a, b);
    }
    true
}

} // verus!
