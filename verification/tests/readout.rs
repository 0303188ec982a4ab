use ne4_konfig::readout::{sanitize_sensor_value, sensor_ma};

fn frame_with(offset: usize, value: u16) -> Vec<u16> {
    let mut frame = vec![0u16; 50];
    frame[offset] = value;
    frame
}

#[test]
fn sanitize_sensor_value_gives_the_value_as_it_is() {
    assert_eq!(sanitize_sensor_value(&frame_with(2, 0)), "0");
    assert_eq!(sanitize_sensor_value(&frame_with(2, 1234)), "1234");
    assert_eq!(sanitize_sensor_value(&frame_with(2, 65535)), "65535");
    assert_eq!(sanitize_sensor_value(&[7, 8, 9]), "9");
}

#[test]
fn sensor_ma_exact_values() {
    assert_eq!(sensor_ma(&frame_with(3, 0)), "0.00");
    assert_eq!(sensor_ma(&frame_with(3, 5)), "0.05");
    assert_eq!(sensor_ma(&frame_with(3, 50)), "0.50");
    assert_eq!(sensor_ma(&frame_with(3, 400)), "4.00");
    assert_eq!(sensor_ma(&frame_with(3, 2000)), "20.00");
    assert_eq!(sensor_ma(&frame_with(3, 2499)), "24.99");
    assert_eq!(sensor_ma(&frame_with(3, 65535)), "655.35");
    assert_eq!(sensor_ma(&[0, 0, 0, 1201]), "12.01");
}

#[test]
fn sensor_ma_is_the_quotient_rounded_to_two_places() {
    for value in 0u16..=u16::MAX {
        let quotient: f32 = value as f32 / 100.0;
        assert_eq!(sensor_ma(&frame_with(3, value)), format!("{:.02}", quotient));
    }
}
