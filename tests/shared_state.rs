use ardu_temp::{TemperatureData, TemperatureState};

#[test]
fn snapshot_holds_reading_and_flag() {
    let state = TemperatureState::new();
    state.set_connected(true);
    state.update(TemperatureData { tenths: [10, 20, 30, 40] });
    let snap = state.snapshot();
    assert!(snap.connected);
    assert_eq!(snap.temperatures.tenths, [10, 20, 30, 40]);
}

// Each update replaces the whole reading: nothing of the old one remains.
#[test]
fn update_replaces_whole_reading() {
    let state = TemperatureState::new();
    let reader = state.clone();
    state.update(TemperatureData { tenths: [1, 2, 3, 4] });
    state.update(TemperatureData { tenths: [5, 6, 7, 8] });
    assert_eq!(reader.get_temperatures(), [5, 6, 7, 8]);
}
