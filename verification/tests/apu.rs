use gameboy::apu::noise::ApuNoise;
use gameboy::apu::square::ApuSquare;
use gameboy::apu::wave::ApuWave;
use gameboy::apu::Apu;
use gameboy::audio_system::AudioSystem;

fn powered() -> Apu {
    let mut apu = Apu::new(AudioSystem::new());
    apu.nr52_write(0x80);
    apu
}

#[test]
fn one_sample_pair_is_emitted_every_95_base_clocks() {
    let mut apu = powered();
    apu.tick(1 + 95 * 2047 - 1);
    assert!(apu.audio_system().take_queued().is_empty());
    apu.tick(1);
    assert_eq!(apu.audio_system().take_queued(), vec![-2048i16; 4096]);
    apu.tick(95 * 2048 - 1);
    assert!(apu.audio_system().take_queued().is_empty());
    apu.tick(1);
    assert_eq!(apu.audio_system().take_queued().len(), 4096);
}

#[test]
fn nothing_moves_while_powered_down() {
    let mut apu = Apu::new(AudioSystem::new());
    apu.tick(1_000_000);
    assert!(apu.audio_system().take_queued().is_empty());
    assert_eq!(apu.nr52_read(), 0x70);
    assert!(apu.audio_system().is_paused());
    apu.nr52_write(0x80);
    assert!(!apu.audio_system().is_paused());
    assert_eq!(apu.nr52_read(), 0xf0);
    apu.nr52_write(0x00);
    assert!(apu.audio_system().is_paused());
}

#[test]
fn master_volume_scales_the_silent_level() {
    for (nr50, left, right) in [(0x00u8, -2048i16, -2048i16), (0x77, -16384, -16384), (0x31, -8192, -4096), (0xf8, -16384, -2048)] {
        let mut apu = powered();
        apu.nr50_write(nr50);
        assert_eq!(apu.nr50_read(), nr50);
        apu.tick(1 + 95 * 2047);
        let batch = apu.audio_system().take_queued();
        assert_eq!(batch.len(), 4096);
        for pair in batch.chunks(2) {
            assert_eq!(pair, [left, right]);
        }
    }
}

#[test]
fn a_square_channel_reaches_the_side_that_lets_it_through() {
    let mut apu = powered();
    apu.nr50_write(0x77);
    apu.nr51_write(0x10);
    assert_eq!(apu.nr51_read(), 0x10);
    apu.nr11_write(0x80);
    apu.nr12_write(0xf0);
    apu.nr13_write(0xff);
    apu.nr14_write(0x83);
    assert_eq!(apu.nr52_read(), 0xf1);
    apu.tick(1 + 95 * 2047);
    let batch = apu.audio_system().take_queued();
    let mut high = 0;
    let mut low = 0;
    for pair in batch.chunks(2) {
        assert_eq!(pair[1], -16384);
        match pair[0] {
            -8704 => high += 1,
            -16384 => low += 1,
            other => panic!("unexpected sample {}", other),
        }
    }
    assert!(high > 900 && low > 900);
}

#[test]
fn registers_read_back_with_their_unused_bits_set() {
    let mut apu = powered();
    apu.nr10_write(0x2b);
    assert_eq!(apu.nr10_read(), 0xab);
    apu.nr10_write(0x00);
    assert_eq!(apu.nr10_read(), 0x80);
    apu.nr11_write(0x81);
    assert_eq!(apu.nr11_read(), 0xbf);
    apu.nr12_write(0xa3);
    assert_eq!(apu.nr12_read(), 0xa3);
    apu.nr13_write(0x12);
    assert_eq!(apu.nr13_read(), 0xff);
    apu.nr14_write(0x40);
    assert_eq!(apu.nr14_read(), 0xff);
    apu.nr14_write(0x00);
    assert_eq!(apu.nr14_read(), 0xbf);
    assert_eq!(apu.nr20_read(), 0xff);
    apu.nr21_write(0x40);
    assert_eq!(apu.nr21_read(), 0x7f);
    assert_eq!(apu.nr11_read(), 0xbf);
    apu.nr22_write(0x5c);
    assert_eq!(apu.nr22_read(), 0x5c);
    assert_eq!(apu.nr23_read(), 0xff);
    apu.nr24_write(0x40);
    assert_eq!(apu.nr24_read(), 0xff);
    apu.nr30_write(0x80);
    assert_eq!(apu.nr30_read(), 0xff);
    apu.nr30_write(0x00);
    assert_eq!(apu.nr30_read(), 0x7f);
    assert_eq!(apu.nr31_read(), 0xff);
    apu.nr32_write(0x40);
    assert_eq!(apu.nr32_read(), 0xdf);
    assert_eq!(apu.nr33_read(), 0xff);
    apu.nr34_write(0x40);
    assert_eq!(apu.nr34_read(), 0xff);
    assert_eq!(apu.nr40_read(), 0xff);
    assert_eq!(apu.nr41_read(), 0xff);
    apu.nr42_write(0x9a);
    assert_eq!(apu.nr42_read(), 0x9a);
    apu.nr43_write(0xe7);
    assert_eq!(apu.nr43_read(), 0xe7);
    apu.nr44_write(0x40);
    assert_eq!(apu.nr44_read(), 0xff);
    apu.nr51_write(0xa5);
    assert_eq!(apu.nr51_read(), 0xa5);
    apu.write_register(0xff24, 0x5a);
    assert_eq!(apu.read_register(0xff24), 0x5a);
    assert_eq!(apu.read_register(0xff27), 0xff);
    apu.write_register(0xff27, 0x12);
    assert_eq!(apu.read_register(0xff27), 0xff);
}

#[test]
fn power_off_clears_the_registers_but_not_the_wave_table() {
    let mut apu = powered();
    apu.nr50_write(0x77);
    apu.nr51_write(0xff);
    apu.nr12_write(0xf3);
    apu.nr14_write(0x80);
    apu.write_wavetable(0xff30, 0x12);
    apu.write_wavetable(0xff3f, 0x34);
    assert_eq!(apu.nr52_read(), 0xf1);
    apu.nr52_write(0x00);
    assert_eq!(apu.nr52_read(), 0x70);
    assert_eq!(apu.nr50_read(), 0x00);
    assert_eq!(apu.nr51_read(), 0x00);
    assert_eq!(apu.nr12_read(), 0x00);
    assert_eq!(apu.read_wavetable(0xff30), 0x12);
    assert_eq!(apu.read_wavetable(0xff3f), 0x34);
    assert_eq!(apu.read_wavetable(0xff31), 0x40);
    apu.nr50_write(0x77);
    apu.nr12_write(0xf3);
    apu.nr11_write(0xc0);
    assert_eq!(apu.nr50_read(), 0x00);
    assert_eq!(apu.nr12_read(), 0x00);
    assert_eq!(apu.nr11_read(), 0x3f);
    apu.write_wavetable(0xff31, 0x56);
    assert_eq!(apu.read_register(0xff31), 0x56);
}

#[test]
fn a_trigger_enables_a_channel_exactly_if_its_dac_is_on() {
    for (nr2, on) in [(0x00u8, false), (0x07, false), (0x08, true), (0x10, true), (0xf0, true)] {
        let mut square = ApuSquare::new();
        square.write_2(nr2);
        square.write_4(0x80);
        assert_eq!(square.enabled(), on, "square {:#x}", nr2);
        square.write_4(0x00);
        assert_eq!(square.enabled(), on);
        let mut noise = ApuNoise::new();
        noise.write_2(nr2);
        noise.write_4(0x80);
        assert_eq!(noise.enabled(), on, "noise {:#x}", nr2);
    }
    for (nr30, on) in [(0x00u8, false), (0x7f, false), (0x80, true)] {
        let mut wave = ApuWave::new();
        wave.write_0(nr30);
        wave.write_4(0x80);
        assert_eq!(wave.enabled(), on);
    }
    let mut square = ApuSquare::new();
    square.write_2(0xf0);
    square.write_4(0x80);
    square.write_2(0x00);
    assert!(!square.enabled());
}

#[test]
fn the_first_square_channel_checks_the_sweep_on_a_trigger() {
    let mut apu = powered();
    apu.nr12_write(0xf0);
    apu.nr13_write(0xff);
    apu.nr14_write(0x83);
    assert_eq!(apu.nr52_read() & 0x01, 0x01);
    apu.nr14_write(0x84);
    assert_eq!(apu.nr52_read() & 0x01, 0x00);
    apu.nr10_write(0x08);
    apu.nr14_write(0x87);
    assert_eq!(apu.nr52_read() & 0x01, 0x01);
    apu.nr22_write(0xf0);
    apu.nr23_write(0xff);
    apu.nr24_write(0x87);
    assert_eq!(apu.nr52_read() & 0x02, 0x02);
}

#[test]
fn the_length_counter_disables_a_channel_at_zero() {
    let mut square = ApuSquare::new();
    square.write_2(0xf0);
    square.write_length(62);
    square.write_4(0xc0);
    assert_eq!(square.length, 2);
    square.tick_length();
    assert!(square.enabled());
    square.tick_length();
    assert!(!square.enabled());
    assert_eq!(square.length, 0);
    square.tick_length();
    assert_eq!(square.length, 0);
    square.write_4(0x80);
    assert_eq!(square.length, 64);
    for _ in 0..100 {
        square.tick_length();
    }
    assert!(square.enabled());
    assert_eq!(square.length, 64);
    let mut wave = ApuWave::new();
    wave.write_0(0x80);
    wave.write_1(0xff);
    wave.write_4(0xc0);
    assert!(wave.enabled());
    wave.tick_length();
    assert!(!wave.enabled());
    let mut noise = ApuNoise::new();
    noise.write_2(0xf0);
    noise.write_1(0x3f);
    noise.write_4(0xc0);
    noise.tick_length();
    assert!(!noise.enabled());
}

#[test]
fn the_envelope_steps_the_volume_towards_its_bound() {
    let mut square = ApuSquare::new();
    square.write_2(0x21);
    square.write_4(0x80);
    assert_eq!(square.volume, 2);
    square.tick_envelope();
    assert_eq!(square.volume, 2);
    square.tick_envelope();
    assert_eq!(square.volume, 1);
    square.tick_envelope();
    square.tick_envelope();
    assert_eq!(square.volume, 0);
    for _ in 0..10 {
        square.tick_envelope();
    }
    assert_eq!(square.volume, 0);
    let mut noise = ApuNoise::new();
    noise.write_2(0xe9);
    noise.write_4(0x80);
    noise.tick_envelope();
    noise.tick_envelope();
    assert_eq!(noise.volume, 15);
    for _ in 0..10 {
        noise.tick_envelope();
    }
    assert_eq!(noise.volume, 15);
    let mut still = ApuSquare::new();
    still.write_2(0x50);
    still.write_4(0x80);
    for _ in 0..10 {
        still.tick_envelope();
    }
    assert_eq!(still.volume, 5);
}

#[test]
fn the_sweep_moves_the_frequency_and_checks_for_overflow() {
    let mut square = ApuSquare::new();
    square.write_2(0xf0);
    square.write_0(0x11);
    square.write_3(0x00);
    square.write_4(0x81);
    assert_eq!(square.frequency, 0x100);
    square.tick_sweep();
    assert_eq!(square.frequency, 0x180);
    assert_eq!(square.sweep_shadow, 0x180);
    assert!(square.enabled());
    square.tick_sweep();
    assert_eq!(square.frequency, 0x180);
    square.tick_sweep();
    assert_eq!(square.frequency, 0x240);
    let mut square = ApuSquare::new();
    square.write_2(0xf0);
    square.write_0(0x11);
    square.write_4(0x84);
    square.tick_sweep();
    assert_eq!(square.frequency, 0x600);
    assert!(!square.enabled());
    let mut square = ApuSquare::new();
    square.write_2(0xf0);
    square.write_0(0x19);
    square.write_4(0x84);
    square.tick_sweep();
    assert_eq!(square.frequency, 0x200);
    assert!(square.enabled());
    let mut square = ApuSquare::new();
    square.write_2(0xf0);
    square.write_0(0x11);
    square.write_3(0xff);
    square.write_4(0x87);
    square.tick_sweep();
    assert_eq!(square.frequency, 0x7ff);
    assert!(!square.enabled());
}

#[test]
fn a_square_channel_plays_its_duty_pattern() {
    for (duty, pattern) in [(0u8, [0usize, 1, 0, 0, 0, 0, 0, 0]), (1, [0, 1, 1, 0, 0, 0, 0, 0]), (2, [0, 1, 1, 1, 1, 0, 0, 0]), (3, [1, 0, 0, 1, 1, 1, 1, 1])] {
        let mut square = ApuSquare::new();
        square.write_2(0xa0);
        square.write_duty(duty);
        square.write_3(0xff);
        square.write_4(0x87);
        assert_eq!(square.period, 4);
        let mut heard = Vec::new();
        for _ in 0..8 {
            for step in 0..5 {
                let out = square.tick();
                if step == 4 {
                    heard.push(out);
                }
            }
        }
        let expected: Vec<usize> = (1..9).map(|phase| 10 * pattern[phase % 8]).collect();
        assert_eq!(heard, expected, "duty {}", duty);
    }
    let mut silent = ApuSquare::new();
    for _ in 0..100 {
        assert_eq!(silent.tick(), 0);
    }
}

#[test]
fn the_noise_register_shifts_with_its_feedback() {
    let mut noise = ApuNoise::new();
    noise.write_2(0xf0);
    noise.write_3(0x00);
    noise.write_4(0x80);
    assert_eq!(noise.lfsr, 0x7fff);
    assert_eq!(noise.lfsr_timer, 8);
    for _ in 0..8 {
        assert_eq!(noise.tick(), 0);
    }
    assert_eq!(noise.lfsr, 0x7fff);
    assert_eq!(noise.tick(), 0);
    assert_eq!(noise.lfsr, 0x3fff);
    assert_eq!(noise.lfsr_timer, 8);
    let mut reference = 0x3fffu16;
    for _ in 0..200 {
        for _ in 0..9 {
            noise.tick();
        }
        let bit = (reference ^ (reference >> 1)) & 1;
        reference = (reference >> 1) | (bit << 14);
        assert_eq!(noise.lfsr, reference);
    }
    let mut narrow = ApuNoise::new();
    narrow.write_2(0xf0);
    narrow.write_4(0x80);
    narrow.write_3(0x08);
    for _ in 0..9 {
        narrow.tick();
    }
    assert_eq!(narrow.lfsr, 0x3fbf);
    let mut slow = ApuNoise::new();
    slow.write_3(0x23);
    assert_eq!(slow.lfsr_timer, 48 << 2);
    assert_eq!(slow.read_3(), 0x23);
}

#[test]
fn the_noise_output_is_the_volume_while_bit_zero_is_clear() {
    let mut noise = ApuNoise::new();
    noise.write_2(0x70);
    noise.write_4(0x80);
    let mut outputs = std::collections::BTreeSet::new();
    for _ in 0..9 * 64 {
        let out = noise.tick();
        assert_eq!(out, 7 * (1 - (noise.lfsr & 1) as usize));
        outputs.insert(out);
    }
    assert_eq!(outputs.into_iter().collect::<Vec<_>>(), vec![0, 7]);
}

#[test]
fn the_wave_channel_plays_its_table_nibble_by_nibble() {
    let mut wave = ApuWave::new();
    assert_eq!(wave.read_wavetable(0), 0x84);
    assert_eq!(wave.read_wavetable(15), 0xda);
    wave.write_wavetable(0, 0x9c);
    wave.write_wavetable(1, 0x3f);
    wave.write_0(0x80);
    wave.write_2(0x20);
    wave.write_3(0xff);
    wave.write_4(0x87);
    let mut heard = Vec::new();
    for _ in 0..4 {
        for step in 0..3 {
            let out = wave.tick();
            if step == 2 {
                heard.push(out);
            }
        }
    }
    assert_eq!(heard, vec![0xc, 0x3, 0xf, 0x4]);
    for (code, expected) in [(0x60u8, 0x1usize), (0x40, 0x2), (0x20, 0x3), (0x00, 0x0)] {
        wave.write_2(code);
        assert_eq!(wave.read_2(), 0x9f | code);
        assert_eq!(wave.tick(), expected);
    }
    wave.write_2(0x20);
    wave.write_0(0x00);
    assert_eq!(wave.tick(), 0);
}
