use noyz::SynthError;
use noyz::channel::Channel;
use noyz::channel::Filterable;
use noyz::envelope::AdsrEnvelope;
use noyz::envelope::EnvelopeModulation;
use noyz::filter::Filter;
use noyz::mixer::Mixer;
use noyz::modulation::ConstModulation;
use noyz::oscillator::Oscillator;
use noyz::oscillator::Shape;
use noyz::pcm::read_wav;
use noyz::pcm::write_wav;

#[test]
fn zero_amplitude_all_shapes_all_zero() {
    for shape in [Shape::Sine, Shape::Square, Shape::Triangle, Shape::Sawtooth] {
        let mut osc = Oscillator::new(44100, 440_000, 250, 0);
        let buf = osc.generate(shape).unwrap();
        assert_eq!(buf.len(), 11025);
        assert!(buf.iter().all(|&x| x == 0));
    }
}

#[test]
fn buffer_length_rounds_to_nearest_sample() {
    // 3 Hz sample rate over half a second is 1.5 samples, rounded to 2.
    let mut osc = Oscillator::new(3, 1_000, 500, 1_000_000);
    let buf = osc.sine_wave().unwrap();
    assert_eq!(buf.len(), 2);
    let mut osc = Oscillator::new(44100, 440_000, 800, 1_000_000);
    let buf = osc.sine_wave().unwrap();
    assert_eq!(buf.len(), 35280);
}

#[test]
fn sine_starts_at_zero_and_peaks_a_quarter_period_in() {
    // At 11025 Hz over a 44100 Hz rate, sample 1 sits at t = 1/(4f).
    let mut osc = Oscillator::new(44100, 11_025_000, 10, 1_000_000);
    let buf = osc.sine_wave().unwrap();
    assert_eq!(buf[0], 0);
    assert_eq!(buf[1], 32767);
    // Sample 3 sits at the trough three quarters in.
    assert_eq!(buf[3], -32767);
}

#[test]
fn sine_quarter_peak_scales_with_amplitude() {
    let mut osc = Oscillator::new(44100, 11_025_000, 10, 500_000);
    let buf = osc.sine_wave().unwrap();
    assert_eq!(buf[1], 16384);
}

#[test]
fn square_wave_takes_exactly_two_values() {
    let mut osc = Oscillator::new(44100, 60_000, 800, 500_000);
    let buf = osc.square_wave().unwrap();
    assert!(!buf.is_empty());
    assert!(buf.iter().all(|&x| x == 16384 || x == -16384));
    let mut osc = Oscillator::new(44100, 60_000, 800, 1_000_000);
    let buf = osc.square_wave().unwrap();
    assert!(buf.iter().all(|&x| x == 32767 || x == -32767));
}

#[test]
fn generate_rejects_bad_parameters_without_touching_the_buffer() {
    let mut osc = Oscillator::new(44100, 440_000, 10, 1_000_000);
    let kept = osc.sine_wave().unwrap();

    osc.sample_rate = 0;
    assert_eq!(osc.sine_wave(), Err(SynthError::InvalidParameter));
    assert_eq!(osc.samples, kept);
    osc.sample_rate = 44100;

    osc.frequency_mhz = 0;
    assert_eq!(osc.triangle_wave(), Err(SynthError::InvalidParameter));
    assert_eq!(osc.samples, kept);
    osc.frequency_mhz = 440_000;

    osc.amplitude_ppm = 1_000_001;
    assert_eq!(osc.sawtooth_wave(), Err(SynthError::InvalidParameter));
    assert_eq!(osc.samples, kept);
}

#[test]
fn fm_by_zero_modulation_degenerates_to_the_plain_sine() {
    let mut square = Oscillator::new(44100, 60_000, 800, 1_000_000);
    square.square_wave().unwrap();
    let zero = ConstModulation::new(0);
    square.fm(&zero);

    let mut sine = Oscillator::new(44100, 60_000, 800, 1_000_000);
    let expected = sine.sine_wave().unwrap();
    assert_eq!(square.samples, expected);
}

#[test]
fn am_rescales_each_sample() {
    let mut osc = Oscillator::new(1000, 1_000, 0, 1_000_000);
    osc.samples = vec![100, -100, 32767, 1];
    let half = ConstModulation::new(500_000);
    osc.am(&half);
    // 32767 / 2 rounds half away from zero to 16384; 1 / 2 rounds to 1.
    assert_eq!(osc.samples, vec![50, -50, 16384, 1]);
}

#[test]
fn envelope_boundaries() {
    let env = AdsrEnvelope::new(100_000, 200_000, 500_000, 100_000, None);
    let dur = 1_000_000;
    assert_eq!(env.amplitude(0, dur), 0);
    assert_eq!(env.amplitude(100_000, dur), 1_000_000);
    assert_eq!(env.amplitude(1_000_000, dur), 0);
    assert_eq!(env.amplitude(2_000_000, dur), 0);
}

#[test]
fn envelope_phases_take_expected_values() {
    let env = AdsrEnvelope::new(100_000, 200_000, 500_000, 100_000, None);
    let dur = 1_000_000;
    // Halfway up the attack ramp.
    assert_eq!(env.amplitude(50_000, dur), 500_000);
    // Halfway down the linear decay towards the sustain level.
    assert_eq!(env.amplitude(200_000, dur), 750_000);
    // Held at the sustain level.
    assert_eq!(env.amplitude(500_000, dur), 500_000);
    // Halfway down the release ramp.
    assert_eq!(env.amplitude(950_000, dur), 250_000);
}

#[test]
fn envelope_quadratic_decay_curve() {
    let env = AdsrEnvelope::new(100_000, 200_000, 0, 100_000, Some(1_000_000));
    let dur = 1_000_000;
    // Halfway through a fully quadratic decay: 1 - 0.5^2 * 1 = 0.75.
    assert_eq!(env.amplitude(200_000, dur), 750_000);
}

#[test]
fn envelope_zero_length_phases_are_instantaneous() {
    let env = AdsrEnvelope::new(0, 200_000, 500_000, 0, None);
    let dur = 1_000_000;
    // No attack: the decay starts at full level immediately.
    assert_eq!(env.amplitude(0, dur), 1_000_000);
    // No release: the sustain level holds right up to the end.
    assert_eq!(env.amplitude(999_999, dur), 500_000);
    assert_eq!(env.amplitude(1_000_000, dur), 0);
}

#[test]
fn sustain_setter_clamps_into_one_unit() {
    let mut env = AdsrEnvelope::new(100, 100, 0, 100, None);
    env.set_sustain(1_500_000);
    assert_eq!(env.sustain(), 1_000_000);
    env.set_sustain(-500_000);
    assert_eq!(env.sustain(), 0);
    // Clamping twice is clamping once.
    env.set_sustain(1_500_000);
    let once = env.sustain();
    env.set_sustain(once as i64);
    assert_eq!(env.sustain(), once);
}

#[test]
fn decay_curve_setter_clamps_into_one_unit() {
    let mut env = AdsrEnvelope::new(100, 100, 0, 100, None);
    env.set_decay_curve(2_000_000);
    assert_eq!(env.decay_curve(), Some(1_000_000));
    env.set_decay_curve(-1);
    assert_eq!(env.decay_curve(), Some(0));
}

#[test]
fn bypass_filter_is_the_identity() {
    let filter = Filter::new();
    let input: Vec<i16> = vec![5, -3, 32767, -32768, 0, 1234];
    let mut samples = input.clone();
    filter.set(&mut samples);
    assert_eq!(samples, input);
}

#[test]
fn low_pass_filter_smooths() {
    let mut filter = Filter::new();
    filter.set_value(-500_000);
    let mut samples: Vec<i16> = vec![1000, 2000];
    filter.set(&mut samples);
    assert_eq!(samples, vec![500, 1250]);
}

#[test]
fn high_pass_filter_tracks_changes() {
    let mut filter = Filter::new();
    filter.set_value(500_000);
    let mut samples: Vec<i16> = vec![1000, 2000];
    filter.set(&mut samples);
    assert_eq!(samples, vec![500, 1000]);
}

#[test]
fn filter_value_setter_clamps() {
    let mut filter = Filter::new();
    filter.set_value(3_000_000);
    assert_eq!(filter.value(), 1_000_000);
    filter.set_value(-3_000_000);
    assert_eq!(filter.value(), -1_000_000);
}

#[test]
fn modulated_filter_with_zero_base_and_zero_modulation_is_identity() {
    let filter = Filter::new();
    let input: Vec<i16> = vec![7, -9, 11, 13];
    let mut samples = input.clone();
    let zero = ConstModulation::new(0);
    filter.modulate(&mut samples, &zero);
    assert_eq!(samples, input);
}

#[test]
fn channel_filter_and_knobs() {
    let mut ch = Channel::new(1_000_000);
    assert_eq!(ch.gain_ppm, 1_000_000);
    ch.set_samples(vec![1000, 2000]);
    ch.set_filter_value(-500_000);
    ch.filter();
    assert_eq!(ch.samples, vec![500, 1250]);
    ch.clear_samples();
    assert!(ch.samples.is_empty());
    ch.set_filter_value(5_000_000);
    // The knob is re-clamped on every mutation.
    ch.set_samples(vec![42]);
    ch.apply_filter();
    assert_eq!(ch.samples, vec![42]);
}

#[test]
fn mixer_with_zero_channels_yields_an_empty_buffer() {
    let mut mixer = Mixer::new();
    assert_eq!(mixer.mix(), Ok(()));
    assert!(mixer.mixed_samples.is_empty());
}

#[test]
fn mixer_single_unit_channel_reproduces_the_buffer() {
    let mut ch = Channel::new(1_000_000);
    ch.set_samples(vec![1, -5, 32767, -32768, 0]);
    let mut mixer = Mixer::new();
    mixer.add_channel(ch);
    assert_eq!(mixer.mix(), Ok(()));
    assert_eq!(mixer.mixed_samples, vec![1, -5, 32767, -32768, 0]);
}

#[test]
fn mixer_sums_and_clamps() {
    let mut a = Channel::new(1_000_000);
    a.set_samples(vec![30_000, 100, -30_000]);
    let mut b = Channel::new(1_000_000);
    b.set_samples(vec![30_000, 200, -30_000]);
    let mut mixer = Mixer::new();
    mixer.add_channel(a);
    mixer.add_channel(b);
    assert_eq!(mixer.mix(), Ok(()));
    assert_eq!(mixer.mixed_samples, vec![32767, 300, -32768]);
}

#[test]
fn mixer_applies_volume_gain_and_master() {
    let mut ch = Channel::new(500_000);
    ch.set_samples(vec![10_000]);
    let mut mixer = Mixer::new();
    mixer.add_channel(ch);
    mixer.set_master_volume(500_000);
    assert_eq!(mixer.mix(), Ok(()));
    assert_eq!(mixer.mixed_samples, vec![2500]);
}

#[test]
fn mixer_rejects_mismatched_buffer_lengths() {
    let mut a = Channel::new(1_000_000);
    a.set_samples(vec![1, 2, 3]);
    let mut b = Channel::new(1_000_000);
    b.set_samples(vec![1, 2]);
    let mut mixer = Mixer::new();
    mixer.add_channel(a);
    mixer.add_channel(b);
    assert_eq!(mixer.mix(), Err(SynthError::InvalidParameter));
    assert!(mixer.mixed_samples.is_empty());
}

#[test]
fn wav_round_trip_is_byte_identical() {
    let mut osc = Oscillator::new(8000, 440_000, 100, 800_000);
    let samples = osc.sine_wave().unwrap();
    let bytes = write_wav(&samples, 8000);
    let (sr, back) = read_wav(&bytes).unwrap();
    assert_eq!(sr, 8000);
    assert_eq!(back, samples);
}

#[test]
fn wav_header_layout() {
    let samples: Vec<i16> = vec![1, -2];
    let bytes = write_wav(&samples, 44100);
    assert_eq!(bytes.len(), 48);
    assert_eq!(&bytes[0..4], b"RIFF");
    assert_eq!(&bytes[8..12], b"WAVE");
    assert_eq!(&bytes[12..16], b"fmt ");
    assert_eq!(&bytes[36..40], b"data");
    // Chunk size covers everything after its own field.
    assert_eq!(u32::from_le_bytes([bytes[4], bytes[5], bytes[6], bytes[7]]), 40);
    // PCM tag 1, mono, 16-bit, byte rate twice the sample rate.
    assert_eq!(u16::from_le_bytes([bytes[20], bytes[21]]), 1);
    assert_eq!(u16::from_le_bytes([bytes[22], bytes[23]]), 1);
    assert_eq!(u32::from_le_bytes([bytes[24], bytes[25], bytes[26], bytes[27]]), 44100);
    assert_eq!(u32::from_le_bytes([bytes[28], bytes[29], bytes[30], bytes[31]]), 88200);
    assert_eq!(u16::from_le_bytes([bytes[32], bytes[33]]), 2);
    assert_eq!(u16::from_le_bytes([bytes[34], bytes[35]]), 16);
    assert_eq!(u32::from_le_bytes([bytes[40], bytes[41], bytes[42], bytes[43]]), 4);
    // Samples follow little-endian.
    assert_eq!(&bytes[44..48], &[1, 0, 254, 255]);
}

#[test]
fn wav_reader_rejects_malformed_streams() {
    assert_eq!(read_wav(&vec![]), Err(SynthError::InvalidParameter));
    assert_eq!(read_wav(&vec![0u8; 44]), Err(SynthError::InvalidParameter));
    let good = write_wav(&vec![1, 2, 3], 8000);
    let mut bad = good.clone();
    bad[0] = b'X';
    assert_eq!(read_wav(&bad), Err(SynthError::InvalidParameter));
    let mut truncated = good.clone();
    truncated.pop();
    assert_eq!(read_wav(&truncated), Err(SynthError::InvalidParameter));
}

#[test]
fn envelope_drives_amplitude_modulation() {
    // A flat envelope at full sustain with no attack, decay or release
    // is the identity amplitude modulation over the whole span.
    let env = AdsrEnvelope::new(0, 0, 1_500_000, 0, None);
    let m = EnvelopeModulation::new(env, 1_000_000);
    let mut osc = Oscillator::new(1000, 1_000, 0, 1_000_000);
    osc.samples = vec![100, -100, 7];
    osc.am(&m);
    assert_eq!(osc.samples, vec![100, -100, 7]);
}

#[test]
fn full_chain_generates_filters_and_mixes() {
    let mut osc = Oscillator::new(8000, 440_000, 50, 900_000);
    let buf = osc.triangle_wave().unwrap();
    let mut ch = Channel::new(1_000_000);
    ch.set_samples(buf.clone());
    ch.set_filter_value(0);
    ch.filter();
    let mut mixer = Mixer::new();
    mixer.add_channel(ch);
    assert_eq!(mixer.mix(), Ok(()));
    assert_eq!(mixer.mixed_samples, buf);
}

#[test]
fn triangle_wave_exact_values() {
    // One hertz sampled at 4 Hz: trough, zero, crest, zero.
    let mut osc = Oscillator::new(4, 1_000, 1000, 1_000_000);
    let buf = osc.triangle_wave().unwrap();
    assert_eq!(buf, vec![-32767, 0, 32767, 0]);
}

#[test]
fn sawtooth_wave_exact_values() {
    // One hertz sampled at 4 Hz: a rising ramp from the trough.
    let mut osc = Oscillator::new(4, 1_000, 1000, 1_000_000);
    let buf = osc.sawtooth_wave().unwrap();
    assert_eq!(buf, vec![-32767, -16384, 0, 16384]);
}

#[test]
fn sine_wave_exact_values_over_one_cycle() {
    // One hertz sampled at 8 Hz: the rational sine's exact quadrant
    // values, and 23130 an eighth of a cycle in (the true sine there
    // is about 23170; the approximation sits within two tenths of a
    // percent).
    let mut osc = Oscillator::new(8, 1_000, 1000, 1_000_000);
    let buf = osc.sine_wave().unwrap();
    assert_eq!(buf, vec![0, 23130, 32767, 23130, 0, -23130, -32767, -23130]);
}

#[test]
fn modulation_offsets_the_filter_knob() {
    // A full low-pass flattens everything onto the zero start state;
    // a modulation of plus one unit lifts the knob back to bypass.
    let mut filter = Filter::new();
    filter.set_value(-1_000_000);
    let mut flattened: Vec<i16> = vec![1000, 2000];
    filter.set(&mut flattened);
    assert_eq!(flattened, vec![0, 0]);

    let mut lifted: Vec<i16> = vec![1000, 2000];
    let unit = ConstModulation::new(1_000_000);
    filter.modulate(&mut lifted, &unit);
    assert_eq!(lifted, vec![1000, 2000]);
}
