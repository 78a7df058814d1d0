use gb::apu::{Apu, Channel1, Channel4, Envelope};

/// A unit that is switched on, with both master volumes at seven.
fn unit() -> Apu {
    let mut apu = Apu::new();
    apu.store(0xff26, 0x80);
    apu.store(0xff24, 0x77);
    apu
}

/// One step of the frame sequencer: bit 12 of the divider falls.
fn sequence(apu: &mut Apu) {
    apu.step(true);
    apu.step(false);
}

#[test]
fn registers_read_back_with_unused_bits_set() {
    let mut apu = unit();
    assert_eq!(apu.load(0xff26), 0xf0);
    for (addr, data, read) in [
        (0xff10u16, 0x35u8, 0xb5u8),
        (0xff11, 0x85, 0xbf),
        (0xff12, 0xa3, 0xa3),
        (0xff13, 0x42, 0xff),
        (0xff14, 0x47, 0xff),
        (0xff16, 0x40, 0x7f),
        (0xff17, 0x5b, 0x5b),
        (0xff18, 0x42, 0xff),
        (0xff19, 0x00, 0xbf),
        (0xff1a, 0x80, 0xff),
        (0xff1b, 0x10, 0xff),
        (0xff1c, 0x40, 0xdf),
        (0xff1d, 0x10, 0xff),
        (0xff1e, 0x40, 0xff),
        (0xff20, 0x3f, 0xff),
        (0xff21, 0xf1, 0xf1),
        (0xff22, 0x9d, 0x9d),
        (0xff23, 0x40, 0xff),
        (0xff24, 0xa5, 0xa5),
        (0xff25, 0x5a, 0x5a),
        (0xff30, 0x12, 0x12),
        (0xff3f, 0xef, 0xef),
    ] {
        apu.store(addr, data);
        assert_eq!(apu.load(addr), read, "register {:04x}", addr);
    }
    assert_eq!(apu.load(0xff15), 0xff);
    assert_eq!(apu.load(0xff1f), 0xff);
    assert_eq!(apu.load(0xff27), 0xff);
    assert_eq!(apu.ch1.period, 0x742);
    assert_eq!(apu.ch1.length_timer, 64 - 5);
    assert_eq!(apu.ch3.length_timer, 256 - 0x10);
    assert_eq!(apu.ch4.length_timer, 1);
}

#[test]
fn power_off_zeroes_the_channels_and_keeps_the_wave() {
    let mut apu = unit();
    for a in 0xff10..=0xff25u16 {
        apu.store(a, 0xff);
    }
    for i in 0..16u16 {
        apu.store(0xff30 + i, (i * 17) as u8);
    }
    for _ in 0..10 {
        apu.step(false);
    }
    assert_ne!(apu.load(0xff26) & 0x0f, 0);
    apu.store(0xff26, 0x00);
    assert_eq!(apu.load(0xff26), 0x70);
    assert_eq!(apu.ch1, Channel1::new());
    assert_eq!(apu.ch2, gb::apu::Channel2::new());
    assert_eq!(apu.ch4, Channel4::new());
    assert!(!apu.ch3.active && !apu.ch3.dac_enabled && !apu.ch3.length_en);
    assert_eq!(
        (apu.ch3.period, apu.ch3.out_level, apu.ch3.length_timer, apu.ch3.freq_timer, apu.ch3.wave_pos),
        (0, 0, 0, 0, 0)
    );
    assert_eq!(apu.load(0xff24), 0x00);
    assert_eq!(apu.load(0xff25), 0x00);
    for i in 0..16u16 {
        assert_eq!(apu.load(0xff30 + i), (i * 17) as u8);
    }
    // writes are ignored while the unit is off, except to the wave samples
    apu.store(0xff12, 0xf0);
    apu.store(0xff25, 0xff);
    apu.store(0xff30, 0x99);
    assert_eq!(apu.load(0xff12), 0x00);
    assert_eq!(apu.load(0xff25), 0x00);
    assert_eq!(apu.load(0xff30), 0x99);
}

#[test]
fn envelope_moves_the_volume() {
    let mut e = Envelope::new();
    assert!(e.update_from_bits(0x5a)); // volume 5, rising, pace 2
    assert_eq!(e.to_bits(), 0x5a);
    assert_eq!((e.volume, e.pace, e.env_dir), (5, 2, true));
    e.restart();
    e.step();
    assert_eq!(e.volume, 5);
    e.step();
    assert_eq!(e.volume, 6);
    for _ in 0..40 {
        e.step();
    }
    assert_eq!(e.volume, 15);
    assert!(e.update_from_bits(0x21)); // volume 2, falling, pace 1
    e.restart();
    e.step();
    assert_eq!(e.volume, 1);
    e.step();
    e.step();
    assert_eq!(e.volume, 0);
    assert!(!e.update_from_bits(0x07));
    assert!(e.update_from_bits(0x08));
    e.step();
    assert_eq!(e.volume, 0); // no pace, no movement
}

#[test]
fn pulse_channel_follows_its_duty() {
    let mut apu = unit();
    apu.store(0xff25, 0x22); // the second channel on both sides
    apu.store(0xff16, 0x80); // duty 2: pattern 0F
    apu.store(0xff17, 0xf0); // volume 15
    apu.store(0xff18, 0xff);
    apu.store(0xff19, 0x87); // period 7FF, trigger
    apu.step(false);
    assert!(apu.ch2.active);
    assert_eq!(apu.load(0xff26), 0xf2);
    // the timer reloads to (2048 - 2047) * 4 and counts the trigger's own cycle
    assert_eq!(apu.ch2.freq_timer, 3);
    let mut highs = Vec::new();
    for _ in 0..8 {
        highs.push(apu.ch2.get_amp());
        for _ in 0..4 {
            apu.step(false);
        }
    }
    // pattern 0F, bit by bit from the lowest: four steps high, four low
    assert_eq!(highs, vec![4094, 4094, 4094, 4094, -4096, -4096, -4096, -4096]);
}

#[test]
fn mixer_scales_by_the_master_volume() {
    let mut apu = unit();
    apu.store(0xff25, 0x02); // the second channel on the right only
    apu.store(0xff17, 0xf0);
    apu.store(0xff19, 0x80);
    apu.step(false);
    assert_eq!(apu.mix(), (0, 4094));
    apu.store(0xff24, 0x70);
    assert_eq!(apu.mix(), (0, 511)); // 4094 / 8, rounded down
    apu.store(0xff24, 0x03);
    assert_eq!(apu.mix(), (0, 2047));
    apu.store(0xff25, 0x22);
    apu.store(0xff24, 0x77);
    assert_eq!(apu.mix(), (4094, 4094));
    // a silent channel with its converter on is at the bottom of the range
    apu.store(0xff12, 0x08);
    apu.store(0xff14, 0x80);
    apu.store(0xff25, 0x10);
    apu.step(false);
    assert!(apu.ch1.active);
    assert_eq!(apu.ch1.get_amp(), -4096);
    assert_eq!(apu.mix(), (-4096, 0));
    apu.store(0xff24, 0x07);
    assert_eq!(apu.mix(), (-512, 0));
    apu.store(0xff26, 0x00);
    assert_eq!(apu.mix(), (0, 0));
}

#[test]
fn frames_enter_the_buffer_every_95_cycles() {
    let mut apu = unit();
    apu.store(0xff25, 0x22);
    apu.store(0xff17, 0xf0);
    apu.store(0xff19, 0x80);
    for _ in 0..94 {
        apu.step(false);
    }
    assert_eq!(apu.buffer_at, 0);
    apu.step(false);
    assert_eq!(apu.buffer_at, 2);
    assert_eq!((apu.batch()[0], apu.batch()[1]), (4094, 4094));
    assert!(!apu.take_batch());
    for _ in 0..95 * 1023 {
        apu.step(false);
    }
    assert_eq!(apu.buffer_at, 0);
    assert!(apu.batch_ready);
    assert!(apu.take_batch());
    assert!(!apu.take_batch());
    assert_eq!(apu.batch().len(), 2048);
}

#[test]
fn a_unit_that_is_off_puts_out_silence() {
    let mut apu = Apu::new();
    for _ in 0..95 * 3 {
        apu.step(true);
        apu.step(false);
    }
    assert_eq!(apu.buffer_at, 12);
    assert!(apu.batch()[..12].iter().all(|s| *s == 0));
    assert_eq!(apu.seq_timer, 0);
}

#[test]
fn length_counter_silences_a_channel() {
    let mut apu = unit();
    apu.store(0xff16, 0x3e); // length 64 - 62 = 2
    apu.store(0xff17, 0xf0);
    apu.store(0xff19, 0xc0); // trigger, length enabled
    apu.step(false);
    assert!(apu.ch2.active);
    sequence(&mut apu); // step 1: nothing
    assert!(apu.ch2.active);
    assert_eq!(apu.ch2.length_timer, 2);
    sequence(&mut apu); // step 2: lengths
    assert_eq!(apu.ch2.length_timer, 1);
    assert!(apu.ch2.active);
    sequence(&mut apu);
    sequence(&mut apu); // step 4: lengths
    assert_eq!(apu.ch2.length_timer, 0);
    assert!(!apu.ch2.active);
    assert_eq!(apu.load(0xff26), 0xf0);
}

#[test]
fn frame_sequencer_clocks_the_envelope_on_step_seven() {
    let mut apu = unit();
    apu.store(0xff17, 0x81); // volume 8, falling, pace 1
    apu.store(0xff19, 0x80);
    apu.step(false);
    for step in 1..=8 {
        sequence(&mut apu);
        assert_eq!(apu.seq_timer, step % 8);
        assert_eq!(apu.ch2.envelope.volume, if step >= 7 { 7 } else { 8 }, "step {}", step);
    }
}

#[test]
fn sweep_raises_the_period_and_silences_on_overflow() {
    let mut apu = unit();
    apu.store(0xff10, 0x11); // pace 1, rising, step 1
    apu.store(0xff12, 0xf0);
    apu.store(0xff13, 0x00);
    apu.store(0xff14, 0x84); // period 400, trigger
    apu.step(false);
    assert!(apu.ch1.active);
    assert_eq!(apu.ch1.internal_period, 0x400);
    sequence(&mut apu);
    sequence(&mut apu); // step 2: the sweep
    assert_eq!(apu.ch1.period, 0x600);
    assert_eq!(apu.ch1.internal_period, 0x600);
    // the check after the write already sees 600 + 300 above 7FF
    assert!(!apu.ch1.active);
    let mut c = Channel1::new();
    c.internal_period = 0x100;
    c.sweep_step = 2;
    c.sweep_dir = true;
    c.active = true;
    assert_eq!(c.calculate_sweep_next_freq(), Some(0xc0));
    c.sweep_dir = false;
    assert_eq!(c.calculate_sweep_next_freq(), Some(0x140));
    c.internal_period = 0x7ff;
    c.sweep_step = 0;
    assert_eq!(c.calculate_sweep_next_freq(), None);
    assert!(!c.active);
}

#[test]
fn wave_channel_plays_its_nibbles() {
    let mut apu = unit();
    apu.store(0xff30, 0x1f);
    apu.store(0xff31, 0x80);
    apu.store(0xff1a, 0x80);
    apu.store(0xff1c, 0x20); // full volume
    apu.store(0xff1d, 0xff);
    apu.store(0xff1e, 0x87); // period 7FF: two cycles a sample
    apu.step(false);
    assert!(apu.ch3.active);
    assert_eq!(apu.ch3.freq_timer, 1);
    assert_eq!(apu.ch3.get_amp(), 1 * 0x222 - 0x1000);
    apu.step(false);
    assert_eq!(apu.ch3.wave_pos, 1);
    assert_eq!(apu.ch3.get_amp(), 15 * 0x222 - 0x1000);
    apu.store(0xff1c, 0x40); // half
    assert_eq!(apu.ch3.get_amp(), 7 * 0x222 - 0x1000);
    apu.store(0xff1c, 0x60); // a quarter
    assert_eq!(apu.ch3.get_amp(), 3 * 0x222 - 0x1000);
    apu.store(0xff1c, 0x00); // mute
    assert_eq!(apu.ch3.get_amp(), -0x1000);
    apu.step(false);
    apu.step(false);
    assert_eq!(apu.ch3.wave_pos, 2);
    apu.store(0xff1c, 0x20);
    assert_eq!(apu.ch3.get_amp(), 8 * 0x222 - 0x1000);
    apu.store(0xff1a, 0x00);
    assert!(!apu.ch3.active);
    assert_eq!(apu.ch3.get_amp(), 0);
}

#[test]
fn noise_channel_shifts_its_register() {
    let mut apu = unit();
    apu.store(0xff21, 0xf0);
    apu.store(0xff22, 0x00); // divisor 8, no shift, fifteen bits
    apu.store(0xff23, 0x80);
    apu.step(false);
    assert!(apu.ch4.active);
    assert_eq!(apu.ch4.lfsr, 0x7fff);
    assert_eq!(apu.ch4.freq_timer, 7);
    assert_eq!(apu.ch4.get_amp(), -4096);
    for _ in 0..7 {
        apu.step(false);
    }
    assert_eq!(apu.ch4.lfsr, 0x3fff);
    assert_eq!(apu.ch4.freq_timer, 8);
    for _ in 0..8 * 13 {
        apu.step(false);
    }
    assert_eq!(apu.ch4.lfsr, 0x0001);
    for _ in 0..8 {
        apu.step(false);
    }
    // the low bits were 1 and 0: a one enters at bit 14
    assert_eq!(apu.ch4.lfsr, 0x4000);
    assert_eq!(apu.ch4.get_amp(), 4094);
    apu.store(0xff22, 0x18); // divisor 8 shifted by one, seven bits
    for _ in 0..8 {
        apu.step(false);
    }
    assert_eq!(apu.ch4.lfsr, 0x2000);
    assert_eq!(apu.ch4.freq_timer, 16);
    assert_eq!(gb::apu::Channel4 { clock_div: 3, clock_shift: 4, ..Channel4::new() }.timer_reload(), 48 << 4);
}
