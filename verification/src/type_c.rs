//! Type-C service: port identity and capability derivation.

use vstd::prelude::*;

use crate::pdo::{SinkApdo, SinkPdo, SourceApdo, SourcePdo};
use crate::power::PowerCapability;

verus! {

/// Global port ID, used to uniquely identify a port.
#[derive(Copy, Clone, Debug, PartialEq, Eq, Structural)]
pub struct GlobalPortId(pub u8);

/// Controller ID, used to uniquely identify a PD controller chip instance.
#[derive(Copy, Clone, Debug, PartialEq, Eq, Structural)]
pub struct ControllerId(pub u8);

/// Current class advertised by a passive Type-C connection at a nominal 5 V,
/// independent of PD negotiation.
#[derive(Copy, Clone, Debug, PartialEq, Eq, Structural)]
pub enum Current {
    /// The USB default current for the connection speed.
    UsbDefault,
    /// 1.5 A advertisement.
    Current1A5,
    /// 3.0 A advertisement.
    Current3A0,
}

impl Current {
    /// Milliamp value of the advertised class. The conservative reading takes
    /// the lower USB 2.0 default for `UsbDefault`.
    pub open spec fn spec_to_ma(self, conservative: bool) -> u16 {
        match self {
            Current::UsbDefault => if conservative {
                500
            } else {
                900
            },
            Current::Current1A5 => 1500,
            Current::Current3A0 => 3000,
        }
    }

    /// Converts the advertised class to milliamps.
    pub fn to_ma(self, conservative: bool) -> (ma: u16)
        ensures
            ma == self.spec_to_ma(conservative),
    {
        match self {
            Current::UsbDefault => if conservative {
                500
            } else {
                900
            },
            Current::Current1A5 => 1500,
            Current::Current3A0 => 3000,
        }
    }
}

/// Capability an SPR AVS PDO delivers: of its two advertised rails, the one
/// with the greater total power, ties favoring the 20 V rail.
pub open spec fn spec_spr_avs_max_power_capability(
    max_current_15v_ma: u16,
    max_current_20v_ma: u16,
) -> PowerCapability {
    if max_current_15v_ma as int * 15000 > max_current_20v_ma as int * 20000 {
        PowerCapability { voltage_mv: 15000, current_ma: max_current_15v_ma }
    } else {
        PowerCapability { voltage_mv: 20000, current_ma: max_current_20v_ma }
    }
}

/// Returns the maximum power capability for an SPR AVS PDO.
pub fn spr_avs_max_power_capability(max_current_15v_ma: u16, max_current_20v_ma: u16) -> (cap:
    PowerCapability)
    ensures
        cap == spec_spr_avs_max_power_capability(max_current_15v_ma, max_current_20v_ma),
{
    if (max_current_15v_ma as u32 * 15000) > (max_current_20v_ma as u32 * 20000) {
        PowerCapability { voltage_mv: 15000, current_ma: max_current_15v_ma }
    } else {
        PowerCapability { voltage_mv: 20000, current_ma: max_current_20v_ma }
    }
}

/// Capability a source PDO advertises, normalized to one operating point.
pub open spec fn spec_source_capability(pdo: SourcePdo) -> PowerCapability {
    match pdo {
        SourcePdo::Fixed { voltage_mv, current_ma } => PowerCapability { voltage_mv, current_ma },
        SourcePdo::Variable { max_voltage_mv, max_current_ma } => PowerCapability {
            voltage_mv: max_voltage_mv,
            current_ma: max_current_ma,
        },
        SourcePdo::Battery { max_voltage_mv, max_power_mw } => PowerCapability {
            voltage_mv: max_voltage_mv,
            current_ma: (max_power_mw / (max_voltage_mv as u32)) as u16,
        },
        SourcePdo::Augmented(apdo) => match apdo {
            SourceApdo::SprPps { max_voltage_mv, max_current_ma } => PowerCapability {
                voltage_mv: max_voltage_mv,
                current_ma: max_current_ma,
            },
            SourceApdo::EprAvs { max_voltage_mv, pdp_mw } => PowerCapability {
                voltage_mv: max_voltage_mv,
                current_ma: (pdp_mw / (max_voltage_mv as u32)) as u16,
            },
            SourceApdo::SprAvs { max_current_15v_ma, max_current_20v_ma } => {
                spec_spr_avs_max_power_capability(max_current_15v_ma, max_current_20v_ma)
            },
        },
    }
}

/// Capability a sink PDO requests, normalized to one operating point.
pub open spec fn spec_sink_capability(pdo: SinkPdo) -> PowerCapability {
    match pdo {
        SinkPdo::Fixed { voltage_mv, operational_current_ma } => PowerCapability {
            voltage_mv,
            current_ma: operational_current_ma,
        },
        SinkPdo::Variable { max_voltage_mv, operational_current_ma } => PowerCapability {
            voltage_mv: max_voltage_mv,
            current_ma: operational_current_ma,
        },
        SinkPdo::Battery { max_voltage_mv, operational_power_mw } => PowerCapability {
            voltage_mv: max_voltage_mv,
            current_ma: (operational_power_mw / (max_voltage_mv as u32)) as u16,
        },
        SinkPdo::Augmented(apdo) => match apdo {
            SinkApdo::SprPps { max_voltage_mv, max_current_ma } => PowerCapability {
                voltage_mv: max_voltage_mv,
                current_ma: max_current_ma,
            },
            SinkApdo::EprAvs { max_voltage_mv, pdp_mw } => PowerCapability {
                voltage_mv: max_voltage_mv,
                current_ma: (pdp_mw / (max_voltage_mv as u32)) as u16,
            },
            SinkApdo::SprAvs { max_current_15v_ma, max_current_20v_ma } => {
                spec_spr_avs_max_power_capability(max_current_15v_ma, max_current_20v_ma)
            },
        },
    }
}

/// Capability advertised by a passive Type-C connection: a nominal 5 V at the
/// conservative reading of the default-current class.
pub open spec fn spec_typec_capability(current: Current) -> PowerCapability {
    PowerCapability { voltage_mv: 5000, current_ma: current.spec_to_ma(true) }
}

/// Derives the normalized capability a source PDO advertises.
pub fn derive_source_capability(pdo: &SourcePdo) -> (cap: PowerCapability)
    requires
        pdo.wf(),
    ensures
        cap == spec_source_capability(*pdo),
{
    match *pdo {
        SourcePdo::Fixed { voltage_mv, current_ma } => PowerCapability { voltage_mv, current_ma },
        SourcePdo::Variable { max_voltage_mv, max_current_ma } => PowerCapability {
            voltage_mv: max_voltage_mv,
            current_ma: max_current_ma,
        },
        SourcePdo::Battery { max_voltage_mv, max_power_mw } => PowerCapability {
            voltage_mv: max_voltage_mv,
            current_ma: #[verifier::truncate] ((max_power_mw / (max_voltage_mv as u32)) as u16),
        },
        SourcePdo::Augmented(apdo) => match apdo {
            SourceApdo::SprPps { max_voltage_mv, max_current_ma } => PowerCapability {
                voltage_mv: max_voltage_mv,
                current_ma: max_current_ma,
            },
            SourceApdo::EprAvs { max_voltage_mv, pdp_mw } => PowerCapability {
                voltage_mv: max_voltage_mv,
                current_ma: #[verifier::truncate] ((pdp_mw / (max_voltage_mv as u32)) as u16),
            },
            SourceApdo::SprAvs { max_current_15v_ma, max_current_20v_ma } => {
                spr_avs_max_power_capability(max_current_15v_ma, max_current_20v_ma)
            },
        },
    }
}

/// Derives the normalized capability a sink PDO requests.
pub fn derive_sink_capability(pdo: &SinkPdo) -> (cap: PowerCapability)
    requires
        pdo.wf(),
    ensures
        cap == spec_sink_capability(*pdo),
{
    match *pdo {
        SinkPdo::Fixed { voltage_mv, operational_current_ma } => PowerCapability {
            voltage_mv,
            current_ma: operational_current_ma,
        },
        SinkPdo::Variable { max_voltage_mv, operational_current_ma } => PowerCapability {
            voltage_mv: max_voltage_mv,
            current_ma: operational_current_ma,
        },
        SinkPdo::Battery { max_voltage_mv, operational_power_mw } => PowerCapability {
            voltage_mv: max_voltage_mv,
            current_ma: #[verifier::truncate] ((operational_power_mw / (max_voltage_mv as u32))
                as u16),
        },
        SinkPdo::Augmented(apdo) => match apdo {
            SinkApdo::SprPps { max_voltage_mv, max_current_ma } => PowerCapability {
                voltage_mv: max_voltage_mv,
                current_ma: max_current_ma,
            },
            SinkApdo::EprAvs { max_voltage_mv, pdp_mw } => PowerCapability {
                voltage_mv: max_voltage_mv,
                current_ma: #[verifier::truncate] ((pdp_mw / (max_voltage_mv as u32)) as u16),
            },
            SinkApdo::SprAvs { max_current_15v_ma, max_current_20v_ma } => {
                spr_avs_max_power_capability(max_current_15v_ma, max_current_20v_ma)
            },
        },
    }
}

/// Derives the capability a passive Type-C default-current advertisement
/// stands for: always 5 V, at the conservative milliamp reading.
pub fn derive_typec_capability(current: Current) -> (cap: PowerCapability)
    ensures
        cap == spec_typec_capability(current),
{
    PowerCapability { voltage_mv: 5000, current_ma: current.to_ma(true) }
}

/// For every Fixed, Variable and SPR PPS PDO, source or sink, derivation
/// returns the advertised voltage and the applicable current field unchanged.
pub proof fn lemma_advertised_fields_pass_through(voltage_mv: u16, current_ma: u16)
    ensures
        spec_source_capability(SourcePdo::Fixed { voltage_mv, current_ma }) == (PowerCapability {
            voltage_mv,
            current_ma,
        }),
        spec_source_capability(
            SourcePdo::Variable { max_voltage_mv: voltage_mv, max_current_ma: current_ma },
        ) == (PowerCapability { voltage_mv, current_ma }),
        spec_source_capability(
            SourcePdo::Augmented(
                SourceApdo::SprPps { max_voltage_mv: voltage_mv, max_current_ma: current_ma },
            ),
        ) == (PowerCapability { voltage_mv, current_ma }),
        spec_sink_capability(
            SinkPdo::Fixed { voltage_mv, operational_current_ma: current_ma },
        ) == (PowerCapability { voltage_mv, current_ma }),
        spec_sink_capability(
            SinkPdo::Variable { max_voltage_mv: voltage_mv, operational_current_ma: current_ma },
        ) == (PowerCapability { voltage_mv, current_ma }),
        spec_sink_capability(
            SinkPdo::Augmented(
                SinkApdo::SprPps { max_voltage_mv: voltage_mv, max_current_ma: current_ma },
            ),
        ) == (PowerCapability { voltage_mv, current_ma }),
{
}

/// For every Battery PDO whose truncated quotient fits the current field, the
/// derived current is the power divided by the voltage, truncating.
pub proof fn lemma_battery_current_is_truncated_quotient(max_voltage_mv: u16, power_mw: u32)
    requires
        max_voltage_mv > 0,
        power_mw as int / max_voltage_mv as int <= u16::MAX,
    ensures
        spec_source_capability(
            SourcePdo::Battery { max_voltage_mv, max_power_mw: power_mw },
        ) == (PowerCapability {
            voltage_mv: max_voltage_mv,
            current_ma: (power_mw as int / max_voltage_mv as int) as u16,
        }),
        spec_sink_capability(
            SinkPdo::Battery { max_voltage_mv, operational_power_mw: power_mw },
        ) == (PowerCapability {
            voltage_mv: max_voltage_mv,
            current_ma: (power_mw as int / max_voltage_mv as int) as u16,
        }),
{
}

/// For every EPR AVS PDO whose truncated quotient fits the current field, the
/// derived current is the profile wattage divided by the voltage, truncating.
pub proof fn lemma_epr_avs_current_is_truncated_quotient(max_voltage_mv: u16, pdp_mw: u32)
    requires
        max_voltage_mv > 0,
        pdp_mw as int / max_voltage_mv as int <= u16::MAX,
    ensures
        spec_source_capability(
            SourcePdo::Augmented(SourceApdo::EprAvs { max_voltage_mv, pdp_mw }),
        ) == (PowerCapability {
            voltage_mv: max_voltage_mv,
            current_ma: (pdp_mw as int / max_voltage_mv as int) as u16,
        }),
        spec_sink_capability(
            SinkPdo::Augmented(SinkApdo::EprAvs { max_voltage_mv, pdp_mw }),
        ) == (PowerCapability {
            voltage_mv: max_voltage_mv,
            current_ma: (pdp_mw as int / max_voltage_mv as int) as u16,
        }),
{
}

/// An SPR AVS PDO resolves to the 20 V rail exactly when that rail's total
/// power is at least the 15 V rail's; ties favor the 20 V rail.
pub proof fn lemma_spr_avs_tie_break(max_current_15v_ma: u16, max_current_20v_ma: u16)
    ensures
        max_current_20v_ma as int * 20000 >= max_current_15v_ma as int * 15000
            ==> spec_spr_avs_max_power_capability(max_current_15v_ma, max_current_20v_ma)
            == (PowerCapability { voltage_mv: 20000, current_ma: max_current_20v_ma }),
        max_current_20v_ma as int * 20000 < max_current_15v_ma as int * 15000
            ==> spec_spr_avs_max_power_capability(max_current_15v_ma, max_current_20v_ma)
            == (PowerCapability { voltage_mv: 15000, current_ma: max_current_15v_ma }),
{
}

/// A Type-C default-current advertisement always derives to a 5 V capability.
pub proof fn lemma_typec_capability_is_5v(current: Current)
    ensures
        spec_typec_capability(current).voltage_mv == 5000,
{
}

} // verus!
