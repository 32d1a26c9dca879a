use shuidui::store_queries::{
    device_info_query, recent_alerts_query, recent_dynamics_query, recent_sensor_data_query,
    ClickHouseError, ALL_DEVICES_QUERY,
};

#[test]
fn sensor_query_text() {
    let q = recent_sensor_data_query("shuidui-001", 100);
    let expected = format!(
        "SELECT device_id, timestamp, cam_angle, duitou_acceleration, grain_reaction_force,
                    frame_vibration_x, frame_vibration_y, frame_vibration_z, frame_vibration_total,
                    water_wheel_speed, duitou_position
             FROM sensor_data
             WHERE device_id = '{}'
             ORDER BY timestamp DESC
             LIMIT {}",
        "shuidui-001", 100
    );
    assert_eq!(q, expected);
}

#[test]
fn dynamics_query_text() {
    let q = recent_dynamics_query("d", 0);
    let expected = format!(
        "SELECT device_id, timestamp, cam_angle, pounding_force, impact_energy,
                    duitou_velocity, duitou_displacement, contact_time,
                    restitution_coefficient, friction_force
             FROM dynamics_simulation
             WHERE device_id = '{}'
             ORDER BY timestamp DESC
             LIMIT {}",
        "d", 0
    );
    assert_eq!(q, expected);
}

#[test]
fn alerts_query_text() {
    let q = recent_alerts_query(Some("shuidui-002"), 50);
    let expected = format!(
        "SELECT id, device_id, timestamp, alert_type, alert_level, alert_message,
                        alert_value, threshold, acknowledged
                 FROM alerts
                 WHERE device_id = '{}'
                 ORDER BY timestamp DESC
                 LIMIT {}",
        "shuidui-002", 50
    );
    assert_eq!(q, expected);
    let q = recent_alerts_query(None, u64::MAX);
    let expected = format!(
        "SELECT id, device_id, timestamp, alert_type, alert_level, alert_message,
                        alert_value, threshold, acknowledged
                 FROM alerts
                 ORDER BY timestamp DESC
                 LIMIT {}",
        u64::MAX
    );
    assert_eq!(q, expected);
}

#[test]
fn device_query_text() {
    let q = device_info_query("shuidui-003");
    let expected = format!(
        "SELECT device_id, device_name, location, cam_base_radius, cam_lift,
                    duitou_mass, water_flow_rate, frame_vibration_threshold
             FROM devices
             WHERE device_id = '{}'
             LIMIT 1",
        "shuidui-003"
    );
    assert_eq!(q, expected);
    assert!(ALL_DEVICES_QUERY.contains("WHERE is_active = true"));
}

#[test]
fn limits_render_in_decimal() {
    for n in [0u64, 7, 9, 10, 99, 100, 1234567890, u64::MAX] {
        let q = recent_sensor_data_query("x", n);
        assert!(q.ends_with(&format!("LIMIT {}", n)));
    }
}

#[test]
fn clickhouse_error_messages() {
    assert_eq!(
        ClickHouseError::ConnectionError("refused".to_string()).message(),
        "ClickHouse connection error: refused"
    );
    assert_eq!(ClickHouseError::QueryError("bad".to_string()).message(), "Query error: bad");
    assert_eq!(ClickHouseError::InsertError(String::new()).message(), "Insert error: ");
}
