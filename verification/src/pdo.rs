//! Power Data Object model: tagged representations of source and sink
//! capability records, as decoded from the wire by the PD protocol layer.

use vstd::prelude::*;

verus! {

/// Augmented (APDO) variants of a source PDO.
#[derive(Copy, Clone, Debug, PartialEq, Eq, Structural)]
pub enum SourceApdo {
    /// SPR Programmable Power Supply.
    SprPps { max_voltage_mv: u16, max_current_ma: u16 },
    /// EPR Adjustable Voltage Supply; current is derived from the declared
    /// Power Delivery Profile wattage.
    EprAvs { max_voltage_mv: u16, pdp_mw: u32 },
    /// SPR Adjustable Voltage Supply, advertising one maximum current per
    /// nominal rail.
    SprAvs { max_current_15v_ma: u16, max_current_20v_ma: u16 },
}

/// A source Power Data Object: one supply capability advertised by a provider.
#[derive(Copy, Clone, Debug, PartialEq, Eq, Structural)]
pub enum SourcePdo {
    Fixed { voltage_mv: u16, current_ma: u16 },
    Variable { max_voltage_mv: u16, max_current_ma: u16 },
    Battery { max_voltage_mv: u16, max_power_mw: u32 },
    Augmented(SourceApdo),
}

/// Augmented (APDO) variants of a sink PDO.
#[derive(Copy, Clone, Debug, PartialEq, Eq, Structural)]
pub enum SinkApdo {
    /// SPR Programmable Power Supply.
    SprPps { max_voltage_mv: u16, max_current_ma: u16 },
    /// EPR Adjustable Voltage Supply; current is derived from the declared
    /// Power Delivery Profile wattage.
    EprAvs { max_voltage_mv: u16, pdp_mw: u32 },
    /// SPR Adjustable Voltage Supply, advertising one maximum current per
    /// nominal rail.
    SprAvs { max_current_15v_ma: u16, max_current_20v_ma: u16 },
}

/// A sink Power Data Object: one consumption request advertised by a consumer.
#[derive(Copy, Clone, Debug, PartialEq, Eq, Structural)]
pub enum SinkPdo {
    Fixed { voltage_mv: u16, operational_current_ma: u16 },
    Variable { max_voltage_mv: u16, operational_current_ma: u16 },
    Battery { max_voltage_mv: u16, operational_power_mw: u32 },
    Augmented(SinkApdo),
}

impl SourcePdo {
    /// A decoded source PDO is well formed when every voltage that stands as a
    /// divisor in capability derivation is non-zero. The wire decoder rejects
    /// records that violate this before they reach the engine.
    pub open spec fn wf(self) -> bool {
        match self {
            SourcePdo::Battery { max_voltage_mv, .. } => max_voltage_mv > 0,
            SourcePdo::Augmented(SourceApdo::EprAvs { max_voltage_mv, .. }) => max_voltage_mv > 0,
            _ => true,
        }
    }
}

impl SinkPdo {
    /// Well-formedness of a decoded sink PDO; see [`SourcePdo::wf`].
    pub open spec fn wf(self) -> bool {
        match self {
            SinkPdo::Battery { max_voltage_mv, .. } => max_voltage_mv > 0,
            SinkPdo::Augmented(SinkApdo::EprAvs { max_voltage_mv, .. }) => max_voltage_mv > 0,
            _ => true,
        }
    }
}

} // verus!
