use noyz::bpm::BPM;
use noyz::hertz::Hz;
use noyz::hertz::KHz;
use noyz::tempo::Tempo;
use noyz::time_signature::TimeSignatures;
use noyz::track::AudioTrack;

#[test]
fn time_signature_tables() {
    assert_eq!(TimeSignatures::ShuffleTime.beats(), 3);
    assert_eq!(TimeSignatures::CommonTime.beats(), 4);
    assert_eq!(TimeSignatures::CutTime.beats(), 2);
    assert_eq!(TimeSignatures::TwoTwo.beats(), 2);
    assert_eq!(TimeSignatures::TwoFour.beats(), 2);
    assert_eq!(TimeSignatures::ThreeFour.beats(), 3);
    assert_eq!(TimeSignatures::FourFour.beats(), 4);
    assert_eq!(TimeSignatures::ShuffleTime.note(), 8);
    assert_eq!(TimeSignatures::FourFour.note(), 4);
    assert_eq!(TimeSignatures::ShuffleTime.note_name(), "8th");
    assert_eq!(TimeSignatures::ThreeFour.note_name(), "4th");
    assert_eq!(TimeSignatures::ShuffleTime.name(), "Shuffle Time");
    assert_eq!(TimeSignatures::CommonTime.name(), "Common Time");
    assert_eq!(TimeSignatures::CutTime.name(), "Cut Time");
    assert_eq!(TimeSignatures::TwoTwo.name(), "Two-Two");
    assert_eq!(TimeSignatures::TwoFour.name(), "Two-Four");
    assert_eq!(TimeSignatures::ThreeFour.name(), "Three-Four");
    assert_eq!(TimeSignatures::FourFour.name(), "Four-Four");
    assert_eq!(TimeSignatures::default(), TimeSignatures::CommonTime);
}

#[test]
fn bpm_conversions() {
    let mut bpm = BPM::default();
    assert_eq!(bpm.bpm_milli, 120_000);
    assert_eq!(bpm.beats_per_second(), 2_000);
    assert_eq!(bpm.seconds_per_beat(), 500_000);
    bpm.set(90_000);
    assert_eq!(bpm.bpm_milli, 90_000);
    bpm.set_bpm(60_000);
    assert_eq!(bpm.seconds_per_beat(), 1_000_000);
    assert_eq!(BPM::new(30_000).bpm_milli, 30_000);
}

#[test]
fn tempo_conversions() {
    let tempo = Tempo::new(Some(120_000), Some(TimeSignatures::ThreeFour));
    // One beat at 120 bpm is half a second.
    assert_eq!(tempo.beats_to_time(1_000), 500_000);
    // One bar of three-four is three beats: one and a half seconds.
    assert_eq!(tempo.bars_to_beats(1_000), 3_000);
    assert_eq!(tempo.bars_to_time(1_000), 1_500_000);
    // The span-per-beat reading over two seconds.
    assert_eq!(tempo.beats_over_time(2_000_000), 1_000);

    let defaulted = Tempo::new(None, None);
    assert_eq!(defaulted.bpm.bpm_milli, 120_000);
    assert_eq!(defaulted.time_signature, TimeSignatures::CommonTime);

    let mut t = Tempo::default();
    t.set_bpm(60_000);
    t.set_time_signature(TimeSignatures::FourFour);
    assert_eq!(t.beats_to_time(1_000), 1_000_000);
    assert_eq!(t.bars_to_time(1_000), 4_000_000);
}

#[test]
fn hertz_arithmetic() {
    let mut hz = Hz::default();
    assert_eq!(hz.hz_milli, 432_000);
    hz.set(1_000);
    hz.add(500);
    assert_eq!(hz.hz_milli, 1_500);
    hz.sub(1_000);
    assert_eq!(hz.hz_milli, 500);
    hz.inc();
    assert_eq!(hz.hz_milli, 1_500);
    hz.dec();
    hz.neg();
    assert_eq!(hz.hz_milli, -500);
    hz.neg_khz();
    assert_eq!(hz.hz_milli, 500);

    // 2 Hz times 3 Hz is 6 Hz on the milli grid.
    let mut hz = Hz::new(2_000);
    hz.mul(3_000);
    assert_eq!(hz.hz_milli, 6_000);
    hz.div(4_000);
    assert_eq!(hz.hz_milli, 1_500);
    hz.rem(1_000);
    assert_eq!(hz.hz_milli, 500);

    let mut hz = Hz::new(1_000_000);
    assert_eq!(hz.to_khz().khz_milli, 1_000);
    hz.add_khz(1_000);
    assert_eq!(hz.hz_milli, 2_000_000);
    hz.sub_khz(500);
    assert_eq!(hz.hz_milli, 1_500_000);
    hz.inc_khz();
    assert_eq!(hz.hz_milli, 2_500_000);
    hz.dec_khz();
    hz.set_khz(2_000);
    assert_eq!(hz.hz_milli, 2_000_000);
    // Multiplying by 0.003 kHz scales by a factor of 3.
    hz.mul_khz(3);
    assert_eq!(hz.hz_milli, 6_000_000);
    hz.div_khz(3);
    assert_eq!(hz.hz_milli, 2_000_000);
    hz.rem_khz(1_500);
    assert_eq!(hz.hz_milli, 500_000);
}

#[test]
fn kilohertz_arithmetic() {
    let mut khz = KHz::default();
    assert_eq!(khz.khz_milli, 432);
    khz.set(1_000);
    khz.add(500);
    khz.sub(1_000);
    assert_eq!(khz.khz_milli, 500);
    khz.inc();
    assert_eq!(khz.khz_milli, 1_500);
    khz.dec();
    khz.neg();
    assert_eq!(khz.khz_milli, -500);
    khz.neg_hz();
    assert_eq!(khz.khz_milli, 500);
    khz.inc_hz();
    assert_eq!(khz.khz_milli, 501);
    khz.dec_hz();

    let mut khz = KHz::new(2_000);
    khz.mul(3_000);
    assert_eq!(khz.khz_milli, 6_000);
    khz.div(4_000);
    assert_eq!(khz.khz_milli, 1_500);
    khz.rem(1_000);
    assert_eq!(khz.khz_milli, 500);

    let mut khz = KHz::new(1_000);
    assert_eq!(khz.to_hz().hz_milli, 1_000_000);
    khz.add_hz(500_000);
    assert_eq!(khz.khz_milli, 1_500);
    khz.sub_hz(250_000);
    assert_eq!(khz.khz_milli, 1_250);
    khz.set_hz(3_000_000);
    assert_eq!(khz.khz_milli, 3_000);
    khz.mul_hz(2_000_000);
    assert_eq!(khz.khz_milli, 6_000);
    khz.div_hz(2_000_000);
    assert_eq!(khz.khz_milli, 3_000);
    khz.rem_hz(2_000_000);
    assert_eq!(khz.khz_milli, 1_000);
}

#[test]
fn audio_track_identity() {
    let track = AudioTrack::default();
    assert_eq!(track.name(), "Audio Track");
    assert_eq!(track.id().len(), 21);
    assert!(track.file_path().is_none());

    let named = AudioTrack::new("Lead".to_string(), Some("take1.wav".to_string()));
    assert_eq!(named.name(), "Lead");
    assert_eq!(named.id().len(), 21);
    assert_eq!(named.file_path().as_deref(), Some("take1.wav"));
}
