//! Query text sent to the ClickHouse time-series store, and the store
//! client's error type.
use crate::text::{decimal, push_decimal};
use vstd::prelude::*;
use vstd::string::*;

verus! {

/// Errors of the ClickHouse store client.
#[derive(Debug, Clone)]
pub enum ClickHouseError {
    ConnectionError(String),
    QueryError(String),
    InsertError(String),
}

pub const CONNECTION_ERROR_PREFIX: &'static str = "ClickHouse connection error: ";

pub const QUERY_ERROR_PREFIX: &'static str = "Query error: ";

pub const INSERT_ERROR_PREFIX: &'static str = "Insert error: ";

impl ClickHouseError {
    /// The error's message: a prefix naming the kind of failure, then the
    /// detail it carries.
    pub open spec fn message_text(&self) -> Seq<char> {
        match self {
            ClickHouseError::ConnectionError(d) => CONNECTION_ERROR_PREFIX@ + d@,
            ClickHouseError::QueryError(d) => QUERY_ERROR_PREFIX@ + d@,
            ClickHouseError::InsertError(d) => INSERT_ERROR_PREFIX@ + d@,
        }
    }

    pub fn message(&self) -> (m: String)
        ensures
            m@ == self.message_text(),
    {
        match self {
            ClickHouseError::ConnectionError(d) => CONNECTION_ERROR_PREFIX.to_owned().concat(d.as_str()),
            ClickHouseError::QueryError(d) => QUERY_ERROR_PREFIX.to_owned().concat(d.as_str()),
            ClickHouseError::InsertError(d) => INSERT_ERROR_PREFIX.to_owned().concat(d.as_str()),
        }
    }
}

/// The device whose readings the API shows when a request names none.
pub const DEFAULT_DEVICE_ID: &'static str = "shuidui-001";

/// How many sensor or simulation rows the API returns when a request sets
/// no limit.
pub const DEFAULT_RECENT_LIMIT: u64 = 100;

/// How many alerts the API returns when a request sets no limit.
pub const DEFAULT_ALERTS_LIMIT: u64 = 50;

pub const SENSOR_QUERY_HEAD: &'static str = "SELECT device_id, timestamp, cam_angle, duitou_acceleration, grain_reaction_force,\n                    frame_vibration_x, frame_vibration_y, frame_vibration_z, frame_vibration_total,\n                    water_wheel_speed, duitou_position\n             FROM sensor_data\n             WHERE device_id = '";

pub const DYNAMICS_QUERY_HEAD: &'static str = "SELECT device_id, timestamp, cam_angle, pounding_force, impact_energy,\n                    duitou_velocity, duitou_displacement, contact_time,\n                    restitution_coefficient, friction_force\n             FROM dynamics_simulation\n             WHERE device_id = '";

/// What follows the device id in the sensor and dynamics queries, up to
/// the row limit.
pub const RECENT_QUERY_TAIL: &'static str = "'\n             ORDER BY timestamp DESC\n             LIMIT ";

pub const ALERTS_QUERY_COLUMNS: &'static str = "SELECT id, device_id, timestamp, alert_type, alert_level, alert_message,\n                        alert_value, threshold, acknowledged\n                 FROM alerts\n";

pub const ALERTS_QUERY_DEVICE_FILTER: &'static str = "                 WHERE device_id = '";

pub const ALERTS_QUERY_DEVICE_TAIL: &'static str = "'\n";

pub const ALERTS_QUERY_TAIL: &'static str = "                 ORDER BY timestamp DESC\n                 LIMIT ";

pub const DEVICE_QUERY_HEAD: &'static str = "SELECT device_id, device_name, location, cam_base_radius, cam_lift,\n                    duitou_mass, water_flow_rate, frame_vibration_threshold\n             FROM devices\n             WHERE device_id = '";

pub const DEVICE_QUERY_TAIL: &'static str = "'\n             LIMIT 1";

pub const ALL_DEVICES_QUERY: &'static str = "\n            SELECT device_id, device_name, location, cam_base_radius, cam_lift,\n                   duitou_mass, water_flow_rate, frame_vibration_threshold\n            FROM devices\n            WHERE is_active = true\n            ORDER BY device_id\n        ";

/// The newest `limit` sensor rows of one device, newest first.
pub open spec fn sensor_query_text(device_id: Seq<char>, limit: nat) -> Seq<char> {
    SENSOR_QUERY_HEAD@ + device_id + RECENT_QUERY_TAIL@ + decimal(limit)
}

/// The newest `limit` simulation rows of one device, newest first.
pub open spec fn dynamics_query_text(device_id: Seq<char>, limit: nat) -> Seq<char> {
    DYNAMICS_QUERY_HEAD@ + device_id + RECENT_QUERY_TAIL@ + decimal(limit)
}

/// The newest `limit` alerts, of one device or of all devices.
pub open spec fn alerts_query_text(device_id: Option<Seq<char>>, limit: nat) -> Seq<char> {
    match device_id {
        Some(id) => ALERTS_QUERY_COLUMNS@ + ALERTS_QUERY_DEVICE_FILTER@ + id
            + ALERTS_QUERY_DEVICE_TAIL@ + ALERTS_QUERY_TAIL@ + decimal(limit),
        None => ALERTS_QUERY_COLUMNS@ + ALERTS_QUERY_TAIL@ + decimal(limit),
    }
}

/// The registration row of one device.
pub open spec fn device_query_text(device_id: Seq<char>) -> Seq<char> {
    DEVICE_QUERY_HEAD@ + device_id + DEVICE_QUERY_TAIL@
}

pub fn recent_sensor_data_query(device_id: &str, limit: u64) -> (q: String)
    ensures
        q@ == sensor_query_text(device_id@, limit as nat),
{
    let mut q = SENSOR_QUERY_HEAD.to_owned();
    q.append(device_id);
    q.append(RECENT_QUERY_TAIL);
    push_decimal(&mut q, limit);
    q
}

pub fn recent_dynamics_query(device_id: &str, limit: u64) -> (q: String)
    ensures
        q@ == dynamics_query_text(device_id@, limit as nat),
{
    let mut q = DYNAMICS_QUERY_HEAD.to_owned();
    q.append(device_id);
    q.append(RECENT_QUERY_TAIL);
    push_decimal(&mut q, limit);
    q
}

pub fn recent_alerts_query(device_id: Option<&str>, limit: u64) -> (q: String)
    ensures
        q@ == alerts_query_text(
            match device_id {
                Some(id) => Some(id@),
                None => None,
            },
            limit as nat,
        ),
{
    let mut q = ALERTS_QUERY_COLUMNS.to_owned();
    match device_id {
        Some(id) => {
            q.append(ALERTS_QUERY_DEVICE_FILTER);
            q.append(id);
            q.append(ALERTS_QUERY_DEVICE_TAIL);
        },
        None => {},
    }
    q.append(ALERTS_QUERY_TAIL);
    push_decimal(&mut q, limit);
    q
}

pub fn device_info_query(device_id: &str) -> (q: String)
    ensures
        q@ == device_query_text(device_id@),
{
    let mut q = DEVICE_QUERY_HEAD.to_owned();
    q.append(device_id);
    q.append(DEVICE_QUERY_TAIL);
    q
}

/// Every alerts query, filtered by a device or not, ends with the ordering
/// clause and the caller's own row limit; what comes before the limit
/// depends on the filter alone; and a filtered query selects exactly the
/// device it was given.
pub proof fn lemma_alerts_query_shows_caller_limit(
    device_id: Option<Seq<char>>,
    limit: nat,
    other_limit: nat,
)
    ensures
        (ALERTS_QUERY_TAIL@ + decimal(limit)).is_suffix_of(alerts_query_text(device_id, limit)),
        ({
            let q1 = alerts_query_text(device_id, limit);
            let q2 = alerts_query_text(device_id, other_limit);
            q1.subrange(0, q1.len() - decimal(limit).len()) == q2.subrange(
                0,
                q2.len() - decimal(other_limit).len(),
            )
        }),
        match device_id {
            Some(id) => (ALERTS_QUERY_COLUMNS@ + ALERTS_QUERY_DEVICE_FILTER@ + id
                + ALERTS_QUERY_DEVICE_TAIL@).is_prefix_of(alerts_query_text(device_id, limit)),
            None => (ALERTS_QUERY_COLUMNS@ + ALERTS_QUERY_TAIL@).is_prefix_of(
                alerts_query_text(device_id, limit),
            ),
        },
{
    let q1 = alerts_query_text(device_id, limit);
    let q2 = alerts_query_text(device_id, other_limit);
    let head = match device_id {
        Some(id) => ALERTS_QUERY_COLUMNS@ + ALERTS_QUERY_DEVICE_FILTER@ + id
            + ALERTS_QUERY_DEVICE_TAIL@ + ALERTS_QUERY_TAIL@,
        None => ALERTS_QUERY_COLUMNS@ + ALERTS_QUERY_TAIL@,
    };
    assert(q1 == head + decimal(limit));
    assert(q2 == head + decimal(other_limit));
    assert(q1.subrange(0, q1.len() - decimal(limit).len()) =~= head);
    assert(q2.subrange(0, q2.len() - decimal(other_limit).len()) =~= head);
    let tail = ALERTS_QUERY_TAIL@ + decimal(limit);
    assert(q1.subrange(q1.len() - tail.len(), q1.len() as int) =~= tail);
    match device_id {
        Some(id) => {
            let p = ALERTS_QUERY_COLUMNS@ + ALERTS_QUERY_DEVICE_FILTER@ + id
                + ALERTS_QUERY_DEVICE_TAIL@;
            assert(q1 =~= p + (ALERTS_QUERY_TAIL@ + decimal(limit)));
            assert(q1.subrange(0, p.len() as int) =~= p);
        },
        None => {
            let p = ALERTS_QUERY_COLUMNS@ + ALERTS_QUERY_TAIL@;
            assert(q1.subrange(0, p.len() as int) =~= p);
        },
    }
}

/// The sensor and simulation queries select the device they were given
/// and end with the ordering clause and the caller's own row limit.
pub proof fn lemma_recent_queries_show_caller_limit(device_id: Seq<char>, limit: nat)
    ensures
        (SENSOR_QUERY_HEAD@ + device_id + RECENT_QUERY_TAIL@).is_prefix_of(
            sensor_query_text(device_id, limit),
        ),
        (RECENT_QUERY_TAIL@ + decimal(limit)).is_suffix_of(sensor_query_text(device_id, limit)),
        (DYNAMICS_QUERY_HEAD@ + device_id + RECENT_QUERY_TAIL@).is_prefix_of(
            dynamics_query_text(device_id, limit),
        ),
        (RECENT_QUERY_TAIL@ + decimal(limit)).is_suffix_of(dynamics_query_text(device_id, limit)),
{
    let d = decimal(limit);
    let tail = RECENT_QUERY_TAIL@ + d;
    let s = sensor_query_text(device_id, limit);
    let sp = SENSOR_QUERY_HEAD@ + device_id + RECENT_QUERY_TAIL@;
    assert(s =~= (SENSOR_QUERY_HEAD@ + device_id) + tail);
    assert(s.subrange(0, sp.len() as int) =~= sp);
    assert(s.subrange(s.len() - tail.len(), s.len() as int) =~= tail);
    let y = dynamics_query_text(device_id, limit);
    let yp = DYNAMICS_QUERY_HEAD@ + device_id + RECENT_QUERY_TAIL@;
    assert(y =~= (DYNAMICS_QUERY_HEAD@ + device_id) + tail);
    assert(y.subrange(0, yp.len() as int) =~= yp);
    assert(y.subrange(y.len() - tail.len(), y.len() as int) =~= tail);
}

} // verus!
