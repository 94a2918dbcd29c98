use sps_data::ChannelEntry;
use sps_data::ChannelMap;
use sps_data::Hit;
use sps_data::SPSChannelType;
use sps_data::SPSData;
use sps_data::SPSDataField;
use sps_data::ThetaRequest;
use sps_data::NUM_FIELDS;
use sps_data::SENTINEL_BITS;

fn entry(uuid: u64, channel_type: SPSChannelType) -> ChannelEntry {
    ChannelEntry { uuid, channel_type }
}

fn standard_map() -> ChannelMap {
    ChannelMap {
        entries: vec![
            entry(1, SPSChannelType::DelayFrontLeft),
            entry(2, SPSChannelType::DelayFrontRight),
            entry(3, SPSChannelType::DelayBackLeft),
            entry(4, SPSChannelType::DelayBackRight),
            entry(5, SPSChannelType::ScintLeft),
            entry(6, SPSChannelType::ScintRight),
            entry(7, SPSChannelType::Cathode),
            entry(8, SPSChannelType::AnodeFront),
            entry(9, SPSChannelType::AnodeBack),
            entry(10, SPSChannelType::Cebra0),
            entry(11, SPSChannelType::Cebra4),
        ],
    }
}

fn hit(uuid: u64, energy: f64, energy_short: f64, timestamp: f64) -> Hit {
    Hit {
        uuid,
        energy: energy.to_bits(),
        energy_short: energy_short.to_bits(),
        timestamp: timestamp.to_bits(),
    }
}

fn column(data: &SPSData, field: SPSDataField) -> &Vec<u64> {
    &data.fields[field.index()]
}

fn settle_theta(data: &mut SPSData, request: Option<ThetaRequest>) {
    if let Some(request) = request {
        let atan_bits = f64::from_bits(request.quotient).atan().to_bits();
        data.set_theta(&request, atan_bits);
    }
}

#[test]
fn empty_event_still_adds_a_sentinel_row() {
    let map = standard_map();
    let mut data = SPSData::default();
    assert_eq!(data.rows, 0);
    let request = data.append_event(Vec::new(), &map, None);
    assert!(request.is_none());
    assert_eq!(data.rows, 1);
    for (_, values) in data.into_named_columns() {
        assert_eq!(values, vec![SENTINEL_BITS]);
    }
}

#[test]
fn every_column_stays_as_long_as_the_event_count() {
    let map = standard_map();
    let mut data = SPSData::default();
    let events = vec![
        vec![hit(5, 1.5, 0.5, 10.0)],
        vec![],
        vec![hit(7, 2.5, 1.5, 20.0), hit(9, 3.5, 2.5, 30.0)],
    ];
    let mut expected_rows = 0;
    for event in events {
        let request = data.append_event(event, &map, Some((0.5f64.to_bits(), 0.5f64.to_bits())));
        settle_theta(&mut data, request);
        expected_rows += 1;
        assert_eq!(data.rows, expected_rows);
        for field in SPSDataField::get_field_vec() {
            assert_eq!(column(&data, field).len(), expected_rows);
        }
    }
}

#[test]
fn a_routed_hit_fills_its_role_trio() {
    let map = standard_map();
    let mut data = SPSData::default();
    data.append_event(vec![hit(10, 4.25, 2.125, 99.5)], &map, None);
    assert_eq!(column(&data, SPSDataField::Cebra0Energy)[0], 4.25f64.to_bits());
    assert_eq!(column(&data, SPSDataField::Cebra0Short)[0], 2.125f64.to_bits());
    assert_eq!(column(&data, SPSDataField::Cebra0Time)[0], 99.5f64.to_bits());
    assert_eq!(column(&data, SPSDataField::Cebra1Energy)[0], SENTINEL_BITS);
    assert_eq!(column(&data, SPSDataField::AnodeFrontEnergy)[0], SENTINEL_BITS);
}

#[test]
fn last_hit_of_a_role_wins() {
    let map = standard_map();
    let mut data = SPSData::default();
    let event = vec![hit(5, 1.0, 0.25, 5.0), hit(5, 2.0, 0.75, 6.0)];
    data.append_event(event, &map, None);
    assert_eq!(column(&data, SPSDataField::ScintLeftEnergy)[0], 2.0f64.to_bits());
    assert_eq!(column(&data, SPSDataField::ScintLeftShort)[0], 0.75f64.to_bits());
    assert_eq!(column(&data, SPSDataField::ScintLeftTime)[0], 6.0f64.to_bits());
}

#[test]
fn unmapped_channel_never_mutates_any_column() {
    let map = standard_map();
    let mapped = vec![hit(5, 1.0, 0.5, 5.0)];
    let with_stray = vec![hit(5, 1.0, 0.5, 5.0), hit(999, 7.0, 7.0, 7.0)];

    let mut plain = SPSData::default();
    plain.append_event(mapped, &map, Some((0.5f64.to_bits(), 0.5f64.to_bits())));
    let mut strayed = SPSData::default();
    strayed.append_event(with_stray, &map, Some((0.5f64.to_bits(), 0.5f64.to_bits())));

    assert_eq!(plain.rows, strayed.rows);
    assert_eq!(plain.into_named_columns(), strayed.into_named_columns());
}

#[test]
fn a_role_never_hit_yields_a_column_of_sentinels() {
    let map = standard_map();
    let mut data = SPSData::default();
    let events = vec![
        vec![hit(5, 1.0, 0.5, 5.0)],
        vec![hit(9, 2.0, 1.0, 6.0), hit(5, 3.0, 2.0, 7.0)],
        vec![],
    ];
    for event in events {
        let request = data.append_event(event, &map, None);
        settle_theta(&mut data, request);
    }
    let all_sentinel = vec![SENTINEL_BITS; 3];
    assert_eq!(column(&data, SPSDataField::CathodeEnergy), &all_sentinel);
    assert_eq!(column(&data, SPSDataField::CathodeShort), &all_sentinel);
    assert_eq!(column(&data, SPSDataField::CathodeTime), &all_sentinel);
}

#[test]
fn front_pair_without_back_pair_suppresses_derived_values() {
    let map = standard_map();
    let mut data = SPSData::default();
    let event = vec![hit(1, 1.0, 0.5, 100.0), hit(2, 1.0, 0.5, 80.0)];
    let request = data.append_event(event, &map, Some((0.5f64.to_bits(), 0.5f64.to_bits())));
    assert!(request.is_none());
    let x1 = (100.0f64 - 80.0) * 0.5 * 1.0 / 2.1;
    assert_eq!(column(&data, SPSDataField::X1)[0], x1.to_bits());
    assert_eq!(column(&data, SPSDataField::X2)[0], SENTINEL_BITS);
    assert_eq!(column(&data, SPSDataField::Theta)[0], SENTINEL_BITS);
    assert_eq!(column(&data, SPSDataField::Xavg)[0], SENTINEL_BITS);
}

#[test]
fn position_and_angle_derivation_scenario() {
    let map = standard_map();
    let mut data = SPSData::default();
    let event = vec![
        hit(1, 1.0, 0.5, 100.0),
        hit(2, 1.0, 0.5, 80.0),
        hit(3, 1.0, 0.5, 50.0),
        hit(4, 1.0, 0.5, 60.0),
    ];
    let request = data.append_event(event, &map, Some((0.5f64.to_bits(), 0.5f64.to_bits())));
    let x1 = (100.0f64 - 80.0) * 0.5 * 1.0 / 2.1;
    let x2 = (50.0f64 - 60.0) * 0.5 * 1.0 / 1.98;
    let diff = x2 - x1;
    assert!(diff < 0.0);
    let request = request.expect("a negative difference owes an arctangent");
    assert!(request.negative);
    assert_eq!(request.quotient, (diff / 36.0).to_bits());
    settle_theta(&mut data, Some(request));

    let theta = std::f64::consts::PI + (diff / 36.0).atan();
    let xavg = 0.5 * x1 + 0.5 * x2;
    assert_eq!(column(&data, SPSDataField::X1)[0], x1.to_bits());
    assert_eq!(column(&data, SPSDataField::X2)[0], x2.to_bits());
    assert_eq!(column(&data, SPSDataField::Theta)[0], theta.to_bits());
    assert_eq!(column(&data, SPSDataField::Xavg)[0], xavg.to_bits());

    assert!((x1 - 4.7619).abs() < 1.0e-4);
    assert!((x2 - (-2.5253)).abs() < 1.0e-4);
    assert!((f64::from_bits(column(&data, SPSDataField::Theta)[0]) - 2.9419).abs() < 1.0e-4);
    assert!((f64::from_bits(column(&data, SPSDataField::Xavg)[0]) - 1.1183).abs() < 1.0e-4);
}

#[test]
fn positive_difference_takes_the_plain_arctangent() {
    let map = standard_map();
    let mut data = SPSData::default();
    let event = vec![
        hit(1, 1.0, 0.5, 80.0),
        hit(2, 1.0, 0.5, 100.0),
        hit(3, 1.0, 0.5, 60.0),
        hit(4, 1.0, 0.5, 50.0),
    ];
    let request = data.append_event(event, &map, None);
    let x1 = (80.0f64 - 100.0) * 0.5 * 1.0 / 2.1;
    let x2 = (60.0f64 - 50.0) * 0.5 * 1.0 / 1.98;
    let diff = x2 - x1;
    assert!(diff > 0.0);
    let request = request.expect("a positive difference owes an arctangent");
    assert!(!request.negative);
    settle_theta(&mut data, Some(request));
    let theta = (diff / 36.0).atan();
    assert_eq!(column(&data, SPSDataField::Theta)[0], theta.to_bits());
}

#[test]
fn equal_estimates_give_half_pi_without_a_request() {
    let map = standard_map();
    let mut data = SPSData::default();
    let event = vec![
        hit(1, 1.0, 0.5, 100.0),
        hit(2, 1.0, 0.5, 100.0),
        hit(3, 1.0, 0.5, 50.0),
        hit(4, 1.0, 0.5, 50.0),
    ];
    let request = data.append_event(event, &map, Some((0.5f64.to_bits(), 0.5f64.to_bits())));
    assert!(request.is_none());
    assert_eq!(column(&data, SPSDataField::X1)[0], 0.0f64.to_bits());
    assert_eq!(column(&data, SPSDataField::X2)[0], 0.0f64.to_bits());
    let half_pi = std::f64::consts::PI * 0.5;
    assert_eq!(column(&data, SPSDataField::Theta)[0], half_pi.to_bits());
    assert_eq!(column(&data, SPSDataField::Xavg)[0], 0.0f64.to_bits());
}

#[test]
fn nan_difference_also_takes_the_half_pi_branch() {
    let map = standard_map();
    let mut data = SPSData::default();
    let event = vec![
        hit(1, 1.0, 0.5, f64::NAN),
        hit(2, 1.0, 0.5, 80.0),
        hit(3, 1.0, 0.5, 50.0),
        hit(4, 1.0, 0.5, 60.0),
    ];
    let request = data.append_event(event, &map, Some((0.5f64.to_bits(), 0.5f64.to_bits())));
    assert!(request.is_none());
    assert!(f64::from_bits(column(&data, SPSDataField::X1)[0]).is_nan());
    let half_pi = std::f64::consts::PI * 0.5;
    assert_eq!(column(&data, SPSDataField::Theta)[0], half_pi.to_bits());
    assert!(f64::from_bits(column(&data, SPSDataField::Xavg)[0]).is_nan());
}

#[test]
fn absent_weights_write_the_sentinel_average() {
    let map = standard_map();
    let mut data = SPSData::default();
    let event = vec![
        hit(1, 1.0, 0.5, 100.0),
        hit(2, 1.0, 0.5, 80.0),
        hit(3, 1.0, 0.5, 50.0),
        hit(4, 1.0, 0.5, 60.0),
    ];
    let request = data.append_event(event, &map, None);
    assert!(request.is_some());
    assert_eq!(column(&data, SPSDataField::Xavg)[0], SENTINEL_BITS);
    assert_ne!(column(&data, SPSDataField::X1)[0], SENTINEL_BITS);
    assert_ne!(column(&data, SPSDataField::X2)[0], SENTINEL_BITS);
}

#[test]
fn weights_scale_the_averaged_position() {
    let map = standard_map();
    let mut data = SPSData::default();
    let event = vec![
        hit(1, 1.0, 0.5, 100.0),
        hit(2, 1.0, 0.5, 80.0),
        hit(3, 1.0, 0.5, 50.0),
        hit(4, 1.0, 0.5, 60.0),
    ];
    data.append_event(event, &map, Some((0.25f64.to_bits(), 0.75f64.to_bits())));
    let x1 = (100.0f64 - 80.0) * 0.5 * 1.0 / 2.1;
    let x2 = (50.0f64 - 60.0) * 0.5 * 1.0 / 1.98;
    let xavg = 0.25 * x1 + 0.75 * x2;
    assert_eq!(column(&data, SPSDataField::Xavg)[0], xavg.to_bits());
}

#[test]
fn conversion_hands_out_named_columns_in_schema_order() {
    let map = standard_map();
    let mut data = SPSData::default();
    data.append_event(vec![hit(5, 1.5, 0.5, 10.0)], &map, None);
    data.append_event(vec![], &map, None);
    let named = data.into_named_columns();
    assert_eq!(named.len(), NUM_FIELDS);
    let fields = SPSDataField::get_field_vec();
    for i in 0..named.len() {
        assert_eq!(named[i].0, fields[i].name());
        assert_eq!(named[i].1.len(), 2);
    }
    assert_eq!(named[6].0, "ScintLeftEnergy");
    assert_eq!(named[6].1, vec![1.5f64.to_bits(), SENTINEL_BITS]);
}

#[test]
fn lookup_takes_the_first_entry_with_an_identity() {
    let map = ChannelMap {
        entries: vec![
            entry(5, SPSChannelType::ScintLeft),
            entry(5, SPSChannelType::Cathode),
        ],
    };
    let mut data = SPSData::default();
    data.append_event(vec![hit(5, 2.0, 1.0, 3.0)], &map, None);
    assert_eq!(column(&data, SPSDataField::ScintLeftEnergy)[0], 2.0f64.to_bits());
    assert_eq!(column(&data, SPSDataField::CathodeEnergy)[0], SENTINEL_BITS);
}
