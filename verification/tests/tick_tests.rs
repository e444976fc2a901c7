use rg_audio::tick::inited_after;

#[test]
fn an_initialised_state_stays_initialised() {
    assert!(inited_after(true, false));
    assert!(inited_after(true, true));
}

#[test]
fn the_answer_decides_for_a_fresh_state() {
    assert!(inited_after(false, true));
    assert!(!inited_after(false, false));
}
