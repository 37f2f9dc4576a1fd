use yarge_core::apu::envelope::Envelope;
use yarge_core::apu::frame_sequencer::FrameSequencer;
use yarge_core::apu::length::LengthTimer;
use yarge_core::apu::noise::NoiseChannel;
use yarge_core::apu::square::SquareWaveChannel;
use yarge_core::apu::wave::WaveDuty;
use yarge_core::apu::{Apu, R_NR12, R_NR14, R_NR50, R_NR51, R_NR52};

#[test]
fn envelope_register_round_trips_and_fades() {
    let mut e = Envelope::new();
    e.set_from_mmio(0xA3);
    assert_eq!(e.to_mmio(), 0xA3);
    e.trigger();
    assert_eq!(e.volume(), 10);
    e.tick();
    e.tick();
    assert_eq!(e.volume(), 10);
    e.tick();
    assert_eq!(e.volume(), 9);
    let mut up = Envelope::new();
    up.set_from_mmio(0xF9);
    up.trigger();
    up.tick();
    assert_eq!(up.volume(), 15);
}

#[test]
fn length_timer_counts_down() {
    let mut l = LengthTimer::new();
    l.set_from_inv(0x3E);
    assert_eq!(l.timer, 2);
    assert!(!l.tick());
    l.enable = true;
    assert!(!l.tick());
    assert!(l.tick());
    assert_eq!(l.timer, 0);
    l.trigger();
    assert_eq!(l.timer, 64);
}

#[test]
fn wave_duty_steps_through_pattern() {
    let mut w = WaveDuty::new();
    for _ in 0..7 {
        assert_eq!(w.get_data(), 0);
        w.tick();
    }
    assert_eq!(w.get_data(), 1);
    w.tick();
    assert_eq!(w.position, 0);
    w.set_pattern_type(3);
    assert_eq!(w.get_data(), 0);
    w.tick();
    assert_eq!(w.get_data(), 1);
}

#[test]
fn frame_sequencer_fires_every_8192_cycles() {
    let mut f = FrameSequencer::new();
    for _ in 0..8191 {
        assert_eq!(f.tick(), None);
    }
    assert_eq!(f.tick(), Some(1));
    assert_eq!(f.cycles, 0);
    for _ in 0..8191 {
        assert_eq!(f.tick(), None);
    }
    assert_eq!(f.tick(), Some(2));
    for _ in 0..6 * 8192 - 1 {
        f.tick();
    }
    assert_eq!(f.tick(), Some(0));
}

#[test]
fn noise_channel_steps_lfsr() {
    let mut n = NoiseChannel::new();
    n.write_register(2, 0xF0);
    n.write_register(3, 0x00);
    n.write_register(4, 0x80);
    assert!(n.is_enabled());
    assert_eq!(n.freq_timer, 8);
    assert_eq!(n.signed_volume(), -15);
    for _ in 0..8 {
        n.tick();
    }
    assert_eq!(n.lfsr, 0x4000);
    assert_eq!(n.signed_volume(), 15);
    assert_eq!(n.read_register(3), 0);
}

#[test]
fn square_channel_trigger_and_output() {
    let mut s: SquareWaveChannel<true> = SquareWaveChannel::new();
    s.write_register(2, 0xF0);
    s.write_register(1, 0x80);
    s.write_register(3, 0xFF);
    s.write_register(4, 0x87);
    assert!(s.is_enabled());
    assert_eq!(s.frequency, 0x7FF);
    assert_eq!(s.freq_timer, 4);
    assert_eq!(s.length_timer, 64);
    assert_eq!(s.signed_volume(), 15);
    for _ in 0..4 {
        s.tick();
    }
    assert_eq!(s.wave_duty.position, 1);
    assert_eq!(s.signed_volume(), -15);
}

#[test]
fn apu_ignores_writes_while_off() {
    let mut a = Apu::new();
    a.write(R_NR50, 0x77, true);
    assert_eq!(a.read(R_NR50), 0);
    a.write(R_NR52, 0x80, true);
    assert_eq!(a.read(R_NR52), 0x80);
    a.write(R_NR50, 0x77, true);
    assert_eq!(a.read(R_NR50), 0x77);
    a.write(R_NR51, 0xA5, true);
    assert_eq!(a.read(R_NR51), 0xA5);
    a.write(R_NR12, 0xF0, true);
    a.write(R_NR14, 0x80, true);
    assert_eq!(a.read(R_NR52), 0x81);
    a.write(R_NR52, 0x00, true);
    assert_eq!(a.read(R_NR52) & 0x80, 0);
}

#[test]
fn apu_requests_samples_periodically() {
    let mut a = Apu::new();
    assert!(!a.tick(0));
    a.write(R_NR52, 0x80, true);
    for _ in 0..21 {
        assert!(!a.tick(0));
    }
    assert!(a.tick(0));
    assert_eq!(a.sample_cycles, 1);
}

#[test]
fn apu_sequencer_steps_on_div_falling_edge() {
    let mut a = Apu::new();
    a.write(R_NR52, 0x80, true);
    a.tick(0x1000);
    assert_eq!(a.sequencer, 0);
    a.tick(0x0000);
    assert_eq!(a.sequencer, 1);
}

#[test]
fn wave_duty_returns_after_eight_ticks() {
    let mut w = WaveDuty::new();
    let mut seen = Vec::new();
    for _ in 0..16 {
        seen.push(w.get_data());
        w.tick();
    }
    assert_eq!(&seen[0..8], &[0, 0, 0, 0, 0, 0, 0, 1]);
    assert_eq!(&seen[0..8], &seen[8..16]);
}
