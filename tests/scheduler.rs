use irtim::sched::{EncoderBusy, EncoderState, PendingFlags, SharedTransmitter};

#[test]
fn load_while_idle_runs_frame_length() {
    let mut tx = SharedTransmitter::new();
    let mut flags = PendingFlags { sample: true, edge: true };
    assert_eq!(tx.on_button_edge(&mut flags, 3), Ok(()));
    assert_eq!(flags, PendingFlags { sample: true, edge: false });
    assert_eq!(tx.state(), EncoderState::Transmitting { elapsed: 0, length: 3 });
    tx.on_sample_tick(&mut flags);
    assert_eq!(flags, PendingFlags { sample: false, edge: false });
    assert_eq!(tx.state(), EncoderState::Transmitting { elapsed: 1, length: 3 });
    tx.on_sample_tick(&mut flags);
    assert_eq!(tx.state(), EncoderState::Transmitting { elapsed: 2, length: 3 });
    tx.on_sample_tick(&mut flags);
    assert_eq!(tx.state(), EncoderState::Idle);
}

#[test]
fn load_while_transmitting_is_busy() {
    let mut tx = SharedTransmitter::new();
    let mut flags = PendingFlags { sample: false, edge: true };
    assert_eq!(tx.on_button_edge(&mut flags, 2), Ok(()));
    tx.on_sample_tick(&mut flags);
    flags.edge = true;
    assert_eq!(tx.on_button_edge(&mut flags, 50), Err(EncoderBusy));
    assert!(!flags.edge);
    assert_eq!(tx.busy_count(), 1);
    assert_eq!(tx.state(), EncoderState::Transmitting { elapsed: 1, length: 2 });
    tx.on_sample_tick(&mut flags);
    assert_eq!(tx.state(), EncoderState::Idle);
    assert_eq!(tx.on_button_edge(&mut flags, 50), Ok(()));
    assert_eq!(tx.busy_count(), 1);
}

#[test]
fn tick_while_idle_only_clears_flag() {
    let mut tx = SharedTransmitter::new();
    let mut flags = PendingFlags { sample: true, edge: true };
    tx.on_sample_tick(&mut flags);
    assert_eq!(tx.state(), EncoderState::Idle);
    assert_eq!(flags, PendingFlags { sample: false, edge: true });
}

#[test]
fn one_tick_frame() {
    let mut s = EncoderState::Idle;
    assert_eq!(s.load(1), Ok(()));
    s.tick();
    assert_eq!(s, EncoderState::Idle);
}
