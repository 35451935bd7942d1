use faust_sine::mydsp;
use faust_sine::newmydspSIG0;

#[test]
fn generator_channel_counts() {
    let sig = newmydspSIG0();
    assert_eq!(sig.get_num_inputsmydspSIG0(), 0);
    assert_eq!(sig.get_num_outputsmydspSIG0(), 1);
}

#[test]
fn generator_starts_at_phase_zero() {
    let mut sig = newmydspSIG0();
    sig.instance_initmydspSIG0(44100);
    assert_eq!(sig.iVec0, [0, 0]);
    assert_eq!(sig.iRec0, [0, 0]);
}

#[test]
fn fill_continues_where_it_stopped() {
    let reference = mydsp::class_init(44100);
    let mut sig = newmydspSIG0();
    sig.instance_initmydspSIG0(44100);
    let mut table = vec![0u32; 4];
    sig.fillmydspSIG0(4, &mut table);
    for i in 0..4 {
        assert_eq!(table[i], reference.sine_at(i));
    }
    // A second fill overwrites the front with phases 4..8: the counter
    // carried across calls.
    sig.fillmydspSIG0(4, &mut table);
    for i in 0..4 {
        assert_eq!(table[i], reference.sine_at(i + 4));
    }
}

#[test]
fn fill_leaves_the_tail_alone() {
    let mut sig = newmydspSIG0();
    sig.instance_initmydspSIG0(48000);
    let mut table = vec![9u32; 6];
    sig.fillmydspSIG0(2, &mut table);
    for i in 2..6 {
        assert_eq!(table[i], 9u32);
    }
}

#[test]
fn fill_wraps_modulo_table_length() {
    let reference = mydsp::class_init(44100);
    let mut sig = newmydspSIG0();
    sig.instance_initmydspSIG0(44100);
    let mut big = vec![0u32; 65536];
    sig.fillmydspSIG0(65536, &mut big);
    let mut next = vec![0u32; 2];
    sig.fillmydspSIG0(2, &mut next);
    // After one whole period the counter is back at phase 0.
    assert_eq!(next[0], reference.sine_at(0));
    assert_eq!(next[1], reference.sine_at(1));
}
