use embedded_service::pdo::{SinkApdo, SinkPdo, SourceApdo, SourcePdo};
use embedded_service::power::PowerCapability;
use embedded_service::type_c::{
    derive_sink_capability, derive_source_capability, derive_typec_capability,
    spr_avs_max_power_capability, Current,
};

#[test]
fn fixed_source_passes_fields_through() {
    let cap = derive_source_capability(&SourcePdo::Fixed {
        voltage_mv: 5000,
        current_ma: 3000,
    });
    assert_eq!(
        cap,
        PowerCapability {
            voltage_mv: 5000,
            current_ma: 3000
        }
    );
}

#[test]
fn variable_source_uses_ceiling_voltage() {
    let cap = derive_source_capability(&SourcePdo::Variable {
        max_voltage_mv: 21000,
        max_current_ma: 2250,
    });
    assert_eq!(
        cap,
        PowerCapability {
            voltage_mv: 21000,
            current_ma: 2250
        }
    );
}

#[test]
fn battery_source_divides_power_by_voltage() {
    let cap = derive_source_capability(&SourcePdo::Battery {
        max_voltage_mv: 20000,
        max_power_mw: 100000,
    });
    assert_eq!(
        cap,
        PowerCapability {
            voltage_mv: 20000,
            current_ma: 5
        }
    );
}

#[test]
fn battery_source_division_truncates() {
    let cap = derive_source_capability(&SourcePdo::Battery {
        max_voltage_mv: 3000,
        max_power_mw: 10000,
    });
    assert_eq!(cap.voltage_mv, 3000);
    assert_eq!(cap.current_ma, 3);
}

#[test]
fn spr_pps_source_passes_fields_through() {
    let cap = derive_source_capability(&SourcePdo::Augmented(SourceApdo::SprPps {
        max_voltage_mv: 11000,
        max_current_ma: 5000,
    }));
    assert_eq!(
        cap,
        PowerCapability {
            voltage_mv: 11000,
            current_ma: 5000
        }
    );
}

#[test]
fn epr_avs_source_divides_pdp_by_voltage() {
    let cap = derive_source_capability(&SourcePdo::Augmented(SourceApdo::EprAvs {
        max_voltage_mv: 28000,
        pdp_mw: 140000,
    }));
    assert_eq!(cap.voltage_mv, 28000);
    assert_eq!(cap.current_ma, 5);
}

#[test]
fn epr_avs_source_division_truncates() {
    let cap = derive_source_capability(&SourcePdo::Augmented(SourceApdo::EprAvs {
        max_voltage_mv: 36000,
        pdp_mw: 100000,
    }));
    assert_eq!(cap.current_ma, 2);
}

#[test]
fn spr_avs_prefers_greater_power_rail() {
    // 15 V power = 2000 * 15000 = 30,000,000; 20 V power = 1000 * 20000 = 20,000,000.
    let cap = spr_avs_max_power_capability(2000, 1000);
    assert_eq!(
        cap,
        PowerCapability {
            voltage_mv: 15000,
            current_ma: 2000
        }
    );
}

#[test]
fn spr_avs_tie_favors_20v_rail() {
    // Both rails deliver 60,000,000; the tie goes to the 20 V rail.
    let cap = spr_avs_max_power_capability(4000, 3000);
    assert_eq!(
        cap,
        PowerCapability {
            voltage_mv: 20000,
            current_ma: 3000
        }
    );
}

#[test]
fn spr_avs_source_pdo_uses_rail_rule() {
    let cap = derive_source_capability(&SourcePdo::Augmented(SourceApdo::SprAvs {
        max_current_15v_ma: 3000,
        max_current_20v_ma: 3000,
    }));
    assert_eq!(
        cap,
        PowerCapability {
            voltage_mv: 20000,
            current_ma: 3000
        }
    );
}

#[test]
fn fixed_sink_uses_operational_current() {
    let cap = derive_sink_capability(&SinkPdo::Fixed {
        voltage_mv: 9000,
        operational_current_ma: 1670,
    });
    assert_eq!(
        cap,
        PowerCapability {
            voltage_mv: 9000,
            current_ma: 1670
        }
    );
}

#[test]
fn variable_sink_uses_operational_current() {
    let cap = derive_sink_capability(&SinkPdo::Variable {
        max_voltage_mv: 12000,
        operational_current_ma: 2000,
    });
    assert_eq!(
        cap,
        PowerCapability {
            voltage_mv: 12000,
            current_ma: 2000
        }
    );
}

#[test]
fn battery_sink_divides_power_by_voltage() {
    let cap = derive_sink_capability(&SinkPdo::Battery {
        max_voltage_mv: 15000,
        operational_power_mw: 45000,
    });
    assert_eq!(
        cap,
        PowerCapability {
            voltage_mv: 15000,
            current_ma: 3
        }
    );
}

#[test]
fn spr_pps_sink_passes_fields_through() {
    let cap = derive_sink_capability(&SinkPdo::Augmented(SinkApdo::SprPps {
        max_voltage_mv: 21000,
        max_current_ma: 3000,
    }));
    assert_eq!(
        cap,
        PowerCapability {
            voltage_mv: 21000,
            current_ma: 3000
        }
    );
}

#[test]
fn epr_avs_sink_divides_pdp_by_voltage() {
    let cap = derive_sink_capability(&SinkPdo::Augmented(SinkApdo::EprAvs {
        max_voltage_mv: 48000,
        pdp_mw: 240000,
    }));
    assert_eq!(cap.voltage_mv, 48000);
    assert_eq!(cap.current_ma, 5);
}

#[test]
fn spr_avs_sink_pdo_uses_rail_rule() {
    let cap = derive_sink_capability(&SinkPdo::Augmented(SinkApdo::SprAvs {
        max_current_15v_ma: 2000,
        max_current_20v_ma: 1000,
    }));
    assert_eq!(
        cap,
        PowerCapability {
            voltage_mv: 15000,
            current_ma: 2000
        }
    );
}

#[test]
fn typec_default_current_is_always_5v() {
    for current in [Current::UsbDefault, Current::Current1A5, Current::Current3A0] {
        let cap = derive_typec_capability(current);
        assert_eq!(cap.voltage_mv, 5000);
    }
}

#[test]
fn typec_default_current_uses_conservative_milliamps() {
    assert_eq!(
        derive_typec_capability(Current::UsbDefault),
        PowerCapability {
            voltage_mv: 5000,
            current_ma: 500
        }
    );
    assert_eq!(derive_typec_capability(Current::Current1A5).current_ma, 1500);
    assert_eq!(derive_typec_capability(Current::Current3A0).current_ma, 3000);
}

#[test]
fn typec_current_class_to_milliamps() {
    assert_eq!(Current::UsbDefault.to_ma(true), 500);
    assert_eq!(Current::UsbDefault.to_ma(false), 900);
    assert_eq!(Current::Current1A5.to_ma(true), 1500);
    assert_eq!(Current::Current1A5.to_ma(false), 1500);
    assert_eq!(Current::Current3A0.to_ma(true), 3000);
    assert_eq!(Current::Current3A0.to_ma(false), 3000);
}
