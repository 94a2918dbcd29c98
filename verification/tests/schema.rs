use sps_data::SPSDataField;
use sps_data::NUM_FIELDS;

#[test]
fn field_vec_has_every_column_once() {
    let fields = SPSDataField::get_field_vec();
    assert_eq!(fields.len(), NUM_FIELDS);
    assert_eq!(fields.len(), 52);
    for i in 0..fields.len() {
        assert_eq!(fields[i].index(), i);
    }
}

#[test]
fn field_vec_is_stable_across_constructions() {
    let first = SPSDataField::get_field_vec();
    let second = SPSDataField::get_field_vec();
    assert_eq!(first, second);
    let first_names: Vec<&str> = first.iter().map(|f| f.name()).collect();
    let second_names: Vec<&str> = second.iter().map(|f| f.name()).collect();
    assert_eq!(first_names, second_names);
}

#[test]
fn field_order_and_names_match_the_schema() {
    let fields = SPSDataField::get_field_vec();
    assert_eq!(fields[0], SPSDataField::AnodeFrontEnergy);
    assert_eq!(fields[0].name(), "AnodeFrontEnergy");
    assert_eq!(fields[14].name(), "CathodeTime");
    assert_eq!(fields[15].name(), "DelayFrontLeftEnergy");
    assert_eq!(fields[26].name(), "DelayBackRightTime");
    assert_eq!(fields[27], SPSDataField::X1);
    assert_eq!(fields[27].name(), "X1");
    assert_eq!(fields[28].name(), "X2");
    assert_eq!(fields[29].name(), "Xavg");
    assert_eq!(fields[30].name(), "Theta");
    assert_eq!(fields[31].name(), "Cebra0Energy");
    assert_eq!(fields[51], SPSDataField::Cebra6Time);
    assert_eq!(fields[51].name(), "Cebra6Time");
}

#[test]
fn sentinel_is_minus_one_million() {
    assert_eq!(sps_data::SENTINEL_BITS, (-1.0e6f64).to_bits());
}
