use cosmic_yudh::audio::music::{Song, NOTE_A4, NOTE_D6, REST};

#[test]
fn whole_note_follows_tempo() {
    assert_eq!(Song::new(120).whole_note, 2000);
    assert_eq!(Song::new(60).whole_note, 4000);
    assert_eq!(Song::new(7).whole_note, 34285);
}

#[test]
fn note_durations() {
    let song = Song::new(120);
    assert_eq!(song.calc_note_duration(4), 500);
    assert_eq!(song.calc_note_duration(8), 250);
    assert_eq!(song.calc_note_duration(-4), 750);
    assert_eq!(song.calc_note_duration(-8), 375);
    assert_eq!(song.calc_note_duration(i16::MIN), 0);
}

#[test]
fn note_table_values() {
    assert_eq!(NOTE_A4, 440);
    assert_eq!(NOTE_D6, 1175);
    assert_eq!(REST, 0);
}
