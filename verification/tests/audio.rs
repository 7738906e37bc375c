use lib::emulator::audio::noise_channel::NoiseChannel;
use lib::emulator::audio::square_channel::SquareChannel;
use lib::emulator::audio::wave_channel::WaveChannel;
use lib::emulator::audio::volume_envelope::VolumeEnvelope;
use lib::emulator::audio::AudioDevice;

#[test]
fn power_gates_register_writes() {
    let mut d = AudioDevice::new();
    assert_eq!(d.gen_rate, 4194304 * 1024 / 48000);
    d.write_byte(0xFF24, 0x77);
    assert_eq!(d.read_byte(0xFF24), 0);
    d.write_byte(0xFF26, 0x80);
    d.write_byte(0xFF24, 0x77);
    assert_eq!(d.read_byte(0xFF24), 0x77);
    assert_eq!(d.options[0], 0x77);
}

#[test]
fn length_counter_stops_channel() {
    let mut d = AudioDevice::new();
    d.write_byte(0xFF26, 0x80);
    d.write_byte(0xFF11, 0x3E); // length load 62: length 1
    d.write_byte(0xFF12, 0xF0); // volume 15
    d.write_byte(0xFF14, 0xC0); // trigger, length enable
    assert!(d.square_channel1.enabled);
    assert_eq!(d.square_channel1.length, 1);
    d.cycle(16384);
    assert_eq!(d.square_channel1.length, 0);
    assert_eq!(d.read_byte(0xFF26) & 1, 1);
    d.cycle(16384);
    assert!(!d.square_channel1.enabled);
    assert_eq!(d.read_byte(0xFF26) & 1, 0);
}

#[test]
fn sweep_raises_frequency_until_overflow() {
    let mut ch = SquareChannel::new(true);
    ch.update_options(0x11, 0); // sweep period 1, shift 1, upwards
    ch.update_options(0x00, 3);
    ch.update_options(0x84, 4); // frequency 0x400, trigger
    assert_eq!(ch.sweep_frequency, 1536);
    assert_eq!(ch.get_frequency(), 1024);
    ch.step_sweep();
    assert_eq!(ch.get_frequency(), 1536);
    assert_eq!(ch.sweep_frequency, 2048);
    assert!(ch.enabled);
    ch.step_sweep();
    assert!(!ch.enabled);
    assert_eq!(ch.get_frequency(), 2047);
}

#[test]
fn sweep_downwards_halves() {
    let mut ch = SquareChannel::new(true);
    ch.update_options(0x19, 0); // period 1, negate, shift 1
    ch.update_options(0x10, 3);
    ch.update_options(0x80, 4); // frequency 0x010, trigger
    assert_eq!(ch.sweep_frequency, 8);
    ch.step_sweep();
    assert_eq!(ch.get_frequency(), 8);
    assert_eq!(ch.sweep_frequency, 4);
    ch.step_sweep();
    ch.step_sweep();
    assert_eq!(ch.sweep_frequency, 1);
    ch.step_sweep();
    assert_eq!(ch.sweep_frequency, 1);
    assert!(ch.enabled);
}

#[test]
fn sweep_delay_counts_down() {
    let mut ch = SquareChannel::new(true);
    ch.update_options(0x31, 0); // period 3, shift 1
    ch.update_options(0x00, 3);
    ch.update_options(0x81, 4); // frequency 0x100, trigger
    assert_eq!(ch.sweep_delay, 3);
    assert_eq!(ch.sweep_frequency, 384);
    ch.step_sweep();
    assert_eq!(ch.sweep_delay, 2);
    assert_eq!(ch.sweep_frequency, 384);
    ch.step_sweep();
    ch.step_sweep();
    assert_eq!(ch.sweep_delay, 3);
    assert_eq!(ch.get_frequency(), 384);
    assert_eq!(ch.sweep_frequency, 576);
}

#[test]
fn square_period_and_envelope() {
    let mut ch = SquareChannel::new(false);
    assert_eq!(ch.calculate_period(), 8192);
    ch.update_options(0xFF, 3);
    ch.update_options(0x07, 4);
    assert_eq!(ch.calculate_period(), 4);
    ch.update_options(0x19, 2); // start volume 1, increase, period 1
    assert_eq!(ch.volume_envelope.volume, 1);
    ch.step_volume();
    assert_eq!(ch.volume_envelope.volume, 2);
    let mut e = VolumeEnvelope::new();
    e.delay = 2;
    e.volume = 15;
    e.step(3, true);
    assert_eq!((e.delay, e.volume), (1, 15));
    e.step(3, true);
    assert_eq!((e.delay, e.volume), (3, 15));
}

#[test]
fn wave_channel_ram_and_period() {
    let mut w = WaveChannel::new();
    w.write_wave_ram(0xFF30, 0xAB);
    w.write_wave_ram(0xFF3F, 0x12);
    assert_eq!(w.wave_ram[0], 0xA);
    assert_eq!(w.wave_ram[1], 0xB);
    assert_eq!(w.wave_ram[30], 0x1);
    assert_eq!(w.wave_ram[31], 0x2);
    w.update_options(0xFF, 3);
    w.update_options(0x07, 4);
    assert_eq!(w.calculate_period(), 2);
    w.update_options(0x00, 1);
    assert_eq!(w.length, 256);
    w.update_options(0xC7, 4);
    assert!(w.enabled);
    w.step_length();
    assert_eq!(w.length, 255);
}

#[test]
fn noise_channel_lfsr_and_period() {
    let mut n = NoiseChannel::new();
    assert_eq!(n.calculate_period(), 8);
    n.update_options(0x32, 3); // divisor code 2, shift 3
    assert_eq!(n.calculate_period(), 256);
    n.lfsr = 0x01;
    n.rng_lfsr();
    assert_eq!(n.lfsr, 0x4000);
    n.update_options(0x3A, 3); // width mode
    n.lfsr = 0x01;
    n.rng_lfsr();
    assert_eq!(n.lfsr, 0x40);
    n.update_options(0xF1, 2);
    n.update_options(0x80, 4); // trigger
    assert!(n.enabled);
    assert_eq!(n.lfsr, 0xFF);
    assert_eq!(n.volume_envelope.volume, 15);
    assert_eq!(n.length, 64);
}

#[test]
fn sample_rate_changes_push_period() {
    let mut d = AudioDevice::new();
    d.set_output_samplerate(44100);
    assert_eq!(d.sample_rate, 44100);
    assert_eq!(d.gen_rate, 4194304 * 1024 / 44100);
    d.write_byte(0xFF26, 0x80);
    d.cycle(d.gen_rate + 1);
    assert!(d.sound_queue_push_requested);
    assert_eq!(d.clock_cycles, 1);
}
