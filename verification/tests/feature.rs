use ddcset::feature::{value_name, Access, Database, Descriptor, ValueType};
use ddcset::getvcp::{GetVCP, Reading};
use ddcset::value::{TableInterpretation, Value, ValueInterpretation};

fn descriptor(code: u8, ty: ValueType, access: Access) -> Descriptor {
    Descriptor {
        name: None,
        description: None,
        group: None,
        code,
        ty,
        access,
        mandatory: false,
        interacts_with: vec![],
    }
}

fn get(raw: bool, table: bool) -> GetVCP {
    GetVCP { feature_code: vec![], raw, table, scan: false }
}

fn every_type() -> Vec<ValueType> {
    vec![
        ValueType::Unknown,
        ValueType::Continuous { interpretation: ValueInterpretation::Continuous },
        ValueType::Continuous { interpretation: ValueInterpretation::VcpVersion },
        ValueType::NonContinuous {
            values: vec![(1, Some("One".to_string()))],
            interpretation: ValueInterpretation::NonContinuous,
        },
        ValueType::NonContinuous { values: vec![], interpretation: ValueInterpretation::NonZeroWrite },
        ValueType::Table { interpretation: TableInterpretation::Generic },
        ValueType::Table { interpretation: TableInterpretation::CodePage },
    ]
}

#[test]
fn database_finds_a_descriptor_by_its_code() {
    let database = Database {
        entries: vec![
            descriptor(0x10, ValueType::Unknown, Access::ReadWrite),
            descriptor(0x12, ValueType::Unknown, Access::ReadOnly),
        ],
    };
    assert_eq!(database.get(0x10).map(|d| d.code), Some(0x10));
    assert_eq!(database.get(0x12).map(|d| d.access), Some(Access::ReadOnly));
    assert_eq!(database.get(0x11), None);
    assert_eq!(Database::new().get(0), None);
}

#[test]
fn database_takes_the_first_of_two_descriptors() {
    let database = Database {
        entries: vec![
            descriptor(0x10, ValueType::Unknown, Access::ReadOnly),
            descriptor(0x10, ValueType::Unknown, Access::WriteOnly),
        ],
    };
    assert_eq!(database.get(0x10).map(|d| d.access), Some(Access::ReadOnly));
}

#[test]
fn value_names_are_looked_up_by_value() {
    let values = vec![
        (1, Some("On".to_string())),
        (2, None),
        (4, Some("Standby".to_string())),
    ];
    assert_eq!(value_name(&values, 1), Some(&"On".to_string()));
    assert_eq!(value_name(&values, 4), Some(&"Standby".to_string()));
    // an entry without a name gives none
    assert_eq!(value_name(&values, 2), None);
    assert_eq!(value_name(&values, 3), None);
    assert_eq!(value_name(&vec![], 0), None);
}

#[test]
fn access_has_a_name() {
    assert_eq!(Access::ReadOnly.name(), "ReadOnly");
    assert_eq!(Access::WriteOnly.name(), "WriteOnly");
    assert_eq!(Access::ReadWrite.name(), "ReadWrite");
}

#[test]
fn a_control_without_descriptor_is_read_as_asked() {
    assert_eq!(get(false, false).get_code(None), Reading::Value(ValueInterpretation::Continuous));
    assert_eq!(get(false, true).get_code(None), Reading::Table(TableInterpretation::Generic));
    assert_eq!(get(true, false).get_code(None), Reading::Value(ValueInterpretation::Continuous));
}

#[test]
fn a_write_only_control_is_not_read_whatever_its_type() {
    for ty in every_type() {
        let feature = descriptor(0x04, ty, Access::WriteOnly);
        for raw in [false, true] {
            for table in [false, true] {
                assert_eq!(get(raw, table).get_code(Some(&feature)), Reading::WriteOnly);
            }
        }
    }
}

#[test]
fn a_control_is_read_under_its_declared_interpretation() {
    let read = |ty| get(false, false).get_code(Some(&descriptor(0x10, ty, Access::ReadWrite)));
    assert_eq!(read(ValueType::Unknown), Reading::Value(ValueInterpretation::Continuous));
    assert_eq!(
        read(ValueType::Continuous { interpretation: ValueInterpretation::VcpVersion }),
        Reading::Value(ValueInterpretation::VcpVersion)
    );
    assert_eq!(
        read(ValueType::NonContinuous {
            values: vec![],
            interpretation: ValueInterpretation::NonZeroWrite
        }),
        Reading::Value(ValueInterpretation::NonZeroWrite)
    );
    assert_eq!(
        read(ValueType::Table { interpretation: TableInterpretation::CodePage }),
        Reading::Table(TableInterpretation::CodePage)
    );
}

#[test]
fn the_table_switch_does_not_count_where_a_descriptor_is_known() {
    let feature = descriptor(
        0x10,
        ValueType::Continuous { interpretation: ValueInterpretation::Continuous },
        Access::ReadOnly,
    );
    assert_eq!(
        get(false, true).get_code(Some(&feature)),
        Reading::Value(ValueInterpretation::Continuous)
    );
}

#[test]
fn raw_mode_overrides_every_declared_interpretation() {
    for ty in every_type() {
        let is_table = matches!(ty, ValueType::Table { .. });
        let feature = descriptor(0x10, ty, Access::ReadWrite);
        let reading = get(true, false).get_code(Some(&feature));
        if is_table {
            assert_eq!(reading, Reading::Table(TableInterpretation::Generic));
        } else {
            assert_eq!(reading, Reading::Value(ValueInterpretation::Continuous));
        }
    }
}

#[test]
fn a_value_is_shown_with_its_code() {
    let value = Value { ty: 0, mh: 0, ml: 100, sh: 0, sl: 50 };
    assert_eq!(
        GetVCP::show_value(0x10, None, ValueInterpretation::Continuous, &value),
        "\tFeature 0x10 = 50 / 100"
    );
    assert_eq!(
        GetVCP::show_value(0x0a, None, ValueInterpretation::NonContinuous, &value),
        "\tFeature 0x0a = 50"
    );
    assert_eq!(
        GetVCP::show_value(0xff, None, ValueInterpretation::Continuous, &value),
        "\tFeature 0xff = 50 / 100"
    );
}

#[test]
fn a_named_value_is_shown_with_its_name() {
    let feature = descriptor(
        0x60,
        ValueType::NonContinuous {
            values: vec![(0x0f, Some("DisplayPort 1".to_string())), (0x11, None)],
            interpretation: ValueInterpretation::NonContinuous,
        },
        Access::ReadWrite,
    );
    let value = |sl| Value { ty: 0, mh: 0, ml: 0xff, sh: 0, sl };
    assert_eq!(
        GetVCP::show_value(0x60, Some(&feature), ValueInterpretation::NonContinuous, &value(0x0f)),
        "\tFeature 0x60 = 15: DisplayPort 1"
    );
    // an entry without a name, and no entry at all: the value alone
    assert_eq!(
        GetVCP::show_value(0x60, Some(&feature), ValueInterpretation::NonContinuous, &value(0x11)),
        "\tFeature 0x60 = 17"
    );
    assert_eq!(
        GetVCP::show_value(0x60, Some(&feature), ValueInterpretation::NonContinuous, &value(0x12)),
        "\tFeature 0x60 = 18"
    );
    // the name goes by the low byte, also where the value is shown raw
    let doubled = Value { ty: 0, mh: 0, ml: 0xff, sh: 0x0f, sl: 0x0f };
    assert_eq!(
        GetVCP::show_value(0x60, Some(&feature), ValueInterpretation::Continuous, &doubled),
        "\tFeature 0x60 = 3855 / 255: DisplayPort 1"
    );
}

#[test]
fn a_table_is_shown_with_its_code() {
    assert_eq!(
        GetVCP::show_table(0x73, TableInterpretation::Generic, &vec![1, 2, 3]),
        Ok("\tFeature 0x73 = [1, 2, 3]".to_string())
    );
    assert_eq!(
        GetVCP::show_table(0x73, TableInterpretation::CodePage, &vec![9]),
        Ok("\tFeature 0x73 = 9".to_string())
    );
    assert_eq!(GetVCP::show_table(0x73, TableInterpretation::CodePage, &vec![]), Err(()));
}

#[test]
fn write_only_notice_names_the_code() {
    assert_eq!(GetVCP::write_only(0x04), "\tFeature 0x04 is write-only");
    assert_eq!(GetVCP::write_only(0xb0), "\tFeature 0xb0 is write-only");
}
