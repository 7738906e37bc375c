use lib::sound::SoundSyncer;

#[test]
fn sound_syncer_averages_every_fifty_reports() {
    let mut s = SoundSyncer::new();
    assert_eq!(s.current_output_rate, 48000);
    for _ in 0..50 {
        assert_eq!(s.update(1000), None);
    }
    // The 51st report closes the first average; there was no previous one
    assert_eq!(s.update(2000), None);
    assert_eq!(s.previous_buffer_avg, 1000);
    assert_eq!(s.cur_buffer_size_index, 1);
    for _ in 0..49 {
        assert_eq!(s.update(500), None);
    }
    // (2000 + 49 * 500) / 50 = 530
    assert_eq!(s.get_average_buffer_size(), 530);
    assert_eq!(s.update(0), Some((1000, 530)));
    assert_eq!(s.previous_buffer_avg, 530);
    s.skip_next_frame();
    assert_eq!(s.previous_buffer_avg, 0);
}
