use lib::emulator::audio::noise_channel::NoiseChannel;
use lib::emulator::audio::sample_buf::SampleBuf;
use lib::emulator::audio::square_channel::SquareChannel;
use lib::emulator::audio::wave_channel::WaveChannel;
use lib::emulator::audio::AudioDevice;

#[test]
fn sample_buf_takes_nearest_samples() {
    let mut b = SampleBuf::new(16);
    b.set_clocks_per_sample(1500);
    b.add_delta(0, 5);
    assert_eq!(b.samples_available, 0);
    assert_eq!(b.current_value, 5);
    b.add_delta(3, -2);
    assert_eq!(b.samples_available, 2);
    assert_eq!(b.current_time, 3000);
    assert_eq!(b.current_value, 3);
    b.end_frame(4);
    assert_eq!(b.samples_available, 3);
    assert_eq!(b.current_time, 0);
    let mut out = [0i16; 8];
    let n = b.read_samples(&mut out, false);
    assert_eq!(n, 3);
    assert_eq!(out, [5, 5, 3, 0, 0, 0, 0, 0]);
    assert_eq!(b.samples_available, 0);
    b.clear();
    assert_eq!(b.current_value, 0);
}

#[test]
fn square_channel_plays_its_duty_pattern() {
    let mut ch = SquareChannel::new(false);
    ch.update_options(0x80, 1); // duty 2
    ch.update_options(0xF0, 2); // volume 15
    ch.update_options(0xFF, 3);
    ch.update_options(0x87, 4); // frequency 2047 (period 4), trigger
    ch.buf.set_clocks_per_sample(1000);
    ch.sample(16, true);
    ch.buf.end_frame(16);
    assert_eq!(ch.generate_output_buffer(), 16);
    assert_eq!(&ch.sample_buf[0..16], &[15, 15, 15, 15, 0, 0, 0, 0, 0, 0, 0, 0, 0, 0, 0, 0]);
    assert_eq!(ch.duty_index, 4);
    assert_eq!(ch.delay, 0);
    ch.sample(16, true);
    ch.buf.end_frame(16);
    assert_eq!(ch.generate_output_buffer(), 16);
    assert_eq!(&ch.sample_buf[0..16], &[0, 0, 0, 0, 15, 15, 15, 15, 15, 15, 15, 15, 15, 15, 15, 15]);
}

#[test]
fn square_channel_disabled_drops_to_zero() {
    let mut ch = SquareChannel::new(false);
    ch.update_options(0x80, 1);
    ch.update_options(0xF0, 2);
    ch.update_options(0xFF, 3);
    ch.update_options(0x87, 4);
    ch.buf.set_clocks_per_sample(1000);
    ch.sample(2, true);
    assert_eq!(ch.last_amp, 15);
    ch.sample(2, false);
    assert_eq!(ch.last_amp, 0);
    assert_eq!(ch.buf.current_value, 0);
}

#[test]
fn wave_channel_plays_wave_ram() {
    let mut w = WaveChannel::new();
    w.write_wave_ram(0xFF30, 0x12);
    w.write_wave_ram(0xFF31, 0x34);
    w.update_options(0x20, 2); // full volume
    w.update_options(0xFF, 3);
    w.update_options(0x87, 4); // frequency 2047 (period 2), trigger
    w.buf.set_clocks_per_sample(1000);
    w.sample(8);
    w.buf.end_frame(8);
    assert_eq!(w.generate_output_buffer(), 8);
    assert_eq!(&w.sample_buf[0..8], &[1, 1, 2, 2, 3, 3, 4, 4]);
    assert_eq!(w.wave_index, 4);
}

#[test]
fn noise_channel_follows_its_shift_register() {
    let mut n = NoiseChannel::new();
    n.update_options(0xF0, 2); // volume 15
    n.update_options(0x80, 4); // trigger, period 8
    n.buf.set_clocks_per_sample(1000);
    n.sample(64);
    n.buf.end_frame(64);
    assert_eq!(n.generate_output_buffer(), 64);
    assert!(n.sample_buf[0..56].iter().all(|&s| s == 15));
    assert!(n.sample_buf[56..64].iter().all(|&s| s == 0));
    assert_eq!(n.lfsr, 0x4000);
    assert_eq!(n.last_amp, 0);
}

#[test]
fn device_generates_a_push_of_samples() {
    let mut d = AudioDevice::new();
    assert_eq!(d.square_channel1.buf.clocks_per_sample, 87382);
    assert_eq!(d.noise_channel.buf.clocks_per_sample, 87382);
    d.write_byte(0xFF26, 0x80);
    d.write_byte(0xFF11, 0x80);
    d.write_byte(0xFF12, 0xF0);
    d.write_byte(0xFF13, 0xFF);
    d.write_byte(0xFF14, 0x87);
    let frame = d.gen_rate;
    assert_eq!(frame, 89478);
    d.generate_samples(frame);
    let n = d.collect_samples();
    assert_eq!(n, 1024);
    assert_eq!(d.square_channel1.sample_buf[0], 15);
    assert!(d.square_channel2.sample_buf.iter().all(|&s| s == 0));
    assert!(d.noise_channel.sample_buf.iter().all(|&s| s == 0));
    assert_eq!(d.square_channel1.buf.samples_available, 0);
    d.cycle(frame + 1);
    assert!(d.sound_queue_push_requested);
    assert_eq!(d.clock_cycles, 1);
    assert_eq!(d.sample_count, 2048);
    assert_eq!(d.square_channel1.buf.samples_available, 0);
    assert_eq!(d.square_channel1.buf.current_time, 0);
    d.clear_blipbufs();
    assert_eq!(d.square_channel1.buf.current_value, 0);
}

#[test]
fn device_sample_rate_sets_buffer_rates() {
    let mut d = AudioDevice::new();
    d.set_output_samplerate(44100);
    assert_eq!(d.wave_channel.buf.clocks_per_sample, 95109);
    d.set_blipbuf_sample_rates(1000);
    assert_eq!(d.square_channel2.buf.clocks_per_sample, 4194304);
}

#[test]
fn frame_sample_count_is_fixed() {
    let mut a = SampleBuf::new(32);
    a.set_clocks_per_sample(1500);
    a.add_delta(1, 3);
    a.end_frame(10);
    let mut b = SampleBuf::new(32);
    b.set_clocks_per_sample(1500);
    b.add_delta(7, -1);
    b.add_delta(9, 4);
    b.end_frame(10);
    assert_eq!(a.samples_available, 7);
    assert_eq!(b.samples_available, 7);
}

#[test]
fn routed_samples_follow_nr51() {
    let mut d = AudioDevice::new();
    d.square_channel1.sample_buf[0] = 15;
    d.wave_channel.sample_buf[0] = 4;
    d.noise_channel.sample_buf[0] = 2;
    d.options[1] = 0b0100_0001; // left: wave; right: first square channel
    assert_eq!(d.routed_sample(0), (4, 15));
    d.options[1] = 0xFF;
    assert_eq!(d.routed_sample(0), (21, 21));
}
