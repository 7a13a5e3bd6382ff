use std::sync::Arc;

use soundwire::config::{DeviceSink, Named, PipeSink, Sink as SinkConfig};
use soundwire::gain::{apply_gain, gain_sample, scale_sample};
use soundwire::ring::{fill_silence, sample_ring};
use soundwire::sink::{Sender, Sink, PREFILL};
use soundwire::switcher::Switcher;

fn named<T>(name: &str, value: T) -> Named<T> {
    Named { name: Arc::new(name.to_string()), value }
}

fn sender_with(capacity: usize) -> (Sender, soundwire::ring::RingConsumer) {
    let (tx, rx) = sample_ring(capacity);
    (Sender::new(tx), rx)
}

#[test]
fn two_controls_switch_back_and_forth() {
    let mut sw = Switcher::new(5u32);
    let (port_a, a) = sw.port();
    let (port_b, b) = sw.port();
    assert!(!a.is_active(&sw));
    assert!(!b.is_active(&sw));
    assert!(port_a.access(&mut sw).is_none());
    assert!(port_b.access(&mut sw).is_none());

    a.switch(&mut sw);
    assert!(a.is_active(&sw));
    assert!(!b.is_active(&sw));
    assert_eq!(port_a.access(&mut sw).copied(), Some(5));
    assert!(port_b.access(&mut sw).is_none());

    b.switch(&mut sw);
    assert!(!a.is_active(&sw));
    assert!(b.is_active(&sw));
    assert!(port_a.access(&mut sw).is_none());
    assert_eq!(port_b.access(&mut sw).copied(), Some(5));

    a.switch(&mut sw);
    assert!(a.is_active(&sw));
    assert!(!b.is_active(&sw));
}

#[test]
fn access_changes_the_one_payload() {
    let mut sw = Switcher::new(1u32);
    let (port_a, a) = sw.port();
    let (port_b, b) = sw.port();
    a.switch(&mut sw);
    *port_a.access(&mut sw).unwrap() = 9;
    b.switch(&mut sw);
    assert_eq!(port_b.access(&mut sw).copied(), Some(9));
    assert!(port_a.access(&mut sw).is_none());
}

#[test]
fn switching_to_the_active_control_keeps_it() {
    let mut sw = Switcher::new(3u8);
    let (port_a, a) = sw.port();
    a.switch(&mut sw);
    a.switch(&mut sw);
    assert!(a.is_active(&sw));
    assert_eq!(port_a.access(&mut sw).copied(), Some(3));
}

#[test]
fn half_volume_truncates_toward_zero() {
    assert_eq!(apply_gain(&[32767, -32768, 0], false, 128), vec![16447, -16448, 0]);
    assert_eq!(scale_sample(-1, 254), 0);
    assert_eq!(scale_sample(-255, 1), -1);
    assert_eq!(scale_sample(100, 51), 20);
}

#[test]
fn muted_is_silence_at_any_volume() {
    let data = [1i16, -1, 32767, -32768, 1234];
    for v in [0u8, 1, 128, 255] {
        assert_eq!(apply_gain(&data, true, v), vec![0; 5]);
    }
    assert_eq!(gain_sample(32767, true, 255), 0);
}

#[test]
fn full_volume_is_identity_and_zero_volume_is_silence() {
    let data = [1i16, -1, 32767, -32768, 1234, 0];
    assert_eq!(apply_gain(&data, false, 255), data.to_vec());
    assert_eq!(apply_gain(&data, false, 0), vec![0; 6]);
    assert_eq!(apply_gain(&[], false, 255), Vec::<i16>::new());
}

#[test]
fn full_ring_keeps_the_oldest_samples() {
    let (mut sender, mut rx) = sender_with(4);
    sender.send(&[1, 2, 3, 4, 5, 6], false, 255);
    let mut out = [9i16; 8];
    let n = rx.fill_output(&mut out);
    assert_eq!(n, 4);
    assert_eq!(out, [1, 2, 3, 4, 0, 0, 0, 0]);
}

#[test]
fn consumer_shortfall_is_zero_filled() {
    let (mut sender, mut rx) = sender_with(16);
    let mut out = [7i16; 4];
    assert_eq!(rx.fill_output(&mut out), 0);
    assert_eq!(out, [0; 4]);
    sender.send(&[10, -10], false, 255);
    let mut out = [7i16; 5];
    assert_eq!(rx.fill_output(&mut out), 2);
    assert_eq!(out, [10, -10, 0, 0, 0]);
}

#[test]
fn send_applies_mute_and_volume() {
    let (mut sender, mut rx) = sender_with(16);
    sender.send(&[100, 200], true, 255);
    sender.send(&[100, -200], false, 51);
    sender.send(&[300], false, 255);
    let mut out = [1i16; 6];
    assert_eq!(rx.fill_output(&mut out), 5);
    assert_eq!(out, [0, 0, 20, -40, 300, 0]);
}

#[test]
fn new_sink_starts_with_silence_and_no_source() {
    let config = named("out", SinkConfig::Pipe(PipeSink { path: "/tmp/out".to_string(), create: false }));
    let (sink, mut rx) = Sink::with_config(&config);
    assert_eq!(sink.name(), "out");
    assert_eq!(sink.value.kind, "pipe");
    assert!(sink.value.get_active_source().is_none());
    assert!(!sink.value.muted());
    assert_eq!(sink.value.volume(), 255);
    let mut out = [5i16; 200];
    assert_eq!(rx.fill_output(&mut out), PREFILL);
    assert!(out.iter().all(|&s| s == 0));
}

#[test]
fn sink_routes_only_the_selected_source() {
    let config = named("speaker", SinkConfig::Device(DeviceSink { device: "default".to_string() }));
    let (mut sink, mut rx) = Sink::with_config(&config);
    assert_eq!(sink.value.kind, "device");
    let a = Arc::new("a".to_string());
    let b = Arc::new("b".to_string());
    let port_a = sink.value.add_source(a.clone());
    let port_b = sink.value.add_source(b.clone());
    let mut drain = [0i16; PREFILL];
    assert_eq!(rx.fill_output(&mut drain), PREFILL);

    assert!(!sink.value.deliver(&port_a, &[1, 2]));
    assert!(sink.value.get_source(&a).is_some());
    assert!(sink.value.get_source(&Arc::new("c".to_string())).is_none());
    assert!(!sink.value.switch_source(&Arc::new("c".to_string())));

    assert!(sink.value.switch_source(&a));
    let (name, _control) = sink.value.get_active_source().unwrap();
    assert_eq!(*name, "a");
    assert!(sink.value.deliver(&port_a, &[1, 2]));
    assert!(!sink.value.deliver(&port_b, &[3, 4]));

    assert!(sink.value.switch_source(&b));
    assert_eq!(*sink.value.get_active_source().unwrap().0, "b");
    assert!(!sink.value.deliver(&port_a, &[5]));
    sink.value.set_volume(51);
    assert_eq!(sink.value.volume(), 51);
    assert!(sink.value.deliver(&port_b, &[100]));
    sink.value.set_muted(true);
    assert!(sink.value.muted());
    assert!(sink.value.deliver(&port_b, &[100]));

    let mut out = [9i16; 6];
    assert_eq!(rx.fill_output(&mut out), 4);
    assert_eq!(out, [1, 2, 20, 0, 0, 0]);
}

#[test]
fn readding_a_source_moves_it_to_a_new_slot() {
    let config = named("o", SinkConfig::Device(DeviceSink { device: String::new() }));
    let (mut sink, _rx) = Sink::with_config(&config);
    let a = Arc::new("a".to_string());
    let old_port = sink.value.add_source(a.clone());
    let new_port = sink.value.add_source(a.clone());
    assert!(sink.value.switch_source(&a));
    assert!(!sink.value.deliver(&old_port, &[1]));
    assert!(sink.value.deliver(&new_port, &[1]));
}

#[test]
fn select_stream_reports_unknown_streams() {
    let config = named("g", SinkConfig::Device(DeviceSink { device: String::new() }));
    let (mut sink, _rx) = Sink::with_config(&config);
    let a = Arc::new("a".to_string());
    let port_a = sink.value.add_source(a.clone());
    assert_eq!(sink.value.slot_count(), 1);
    let err = sink.value.select_stream(&Arc::new("zz".to_string())).err().unwrap();
    assert_eq!(err.code, -32602);
    assert_eq!(err.message, "Invalid parameter: Unknown stream: zz");
    assert!(sink.value.get_active_source().is_none());
    assert!(sink.value.select_stream(&a).is_ok());
    assert!(sink.value.deliver(&port_a, &[1]));
}

#[test]
fn fill_silence_keeps_the_head() {
    let mut out = [3i16, 4, 5, 6];
    fill_silence(&mut out, 1);
    assert_eq!(out, [3, 0, 0, 0]);
    let mut out = [3i16, 4];
    fill_silence(&mut out, 2);
    assert_eq!(out, [3, 4]);
    let mut out = [3i16, 4];
    fill_silence(&mut out, 0);
    assert_eq!(out, [0, 0]);
}

#[test]
fn adding_a_source_keeps_the_active_one() {
    let config = named("k", SinkConfig::Device(DeviceSink { device: String::new() }));
    let (mut sink, _rx) = Sink::with_config(&config);
    let a = Arc::new("a".to_string());
    let port_a = sink.value.add_source(a.clone());
    assert!(sink.value.switch_source(&a));
    let port_b = sink.value.add_source(Arc::new("b".to_string()));
    assert_eq!(*sink.value.get_active_source().unwrap().0, "a");
    assert!(sink.value.deliver(&port_a, &[1]));
    assert!(!sink.value.deliver(&port_b, &[1]));
}

#[test]
fn mute_and_volume_take_effect_on_the_next_chunk() {
    let config = named("m", SinkConfig::Device(DeviceSink { device: String::new() }));
    let (mut sink, mut rx) = Sink::with_config(&config);
    let a = Arc::new("a".to_string());
    let port = sink.value.add_source(a.clone());
    assert!(!sink.value.muted());
    assert_eq!(sink.value.volume(), 255);
    assert!(sink.value.select_stream(&a).is_ok());
    assert!(!sink.value.muted());
    assert_eq!(sink.value.volume(), 255);
    let mut drain = [0i16; PREFILL];
    rx.fill_output(&mut drain);
    assert!(sink.value.deliver(&port, &[510]));
    sink.value.set_volume(128);
    assert!(!sink.value.muted());
    assert!(sink.value.deliver(&port, &[510]));
    sink.value.set_muted(true);
    assert_eq!(sink.value.volume(), 128);
    assert!(sink.value.deliver(&port, &[510]));
    sink.value.set_muted(false);
    assert!(sink.value.deliver(&port, &[-510]));
    let mut out = [7i16; 5];
    assert_eq!(rx.fill_output(&mut out), 4);
    assert_eq!(out, [510, 256, 0, -256, 0]);
}
