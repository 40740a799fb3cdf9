use vstd::prelude::*;

verus! {

/// Backplate
///
/// ```toml
/// [backplate]
/// near_pir_threshold = 15
/// serial_port = "/dev/ttyO2"
/// wiring = { heat_wire: "W1", cool_wire: "Y1" }
/// ```
#[derive(Debug, Clone, PartialEq, Eq)]
pub struct BackplateOptions {
    /// Minimum near proximity value to be considered as movement, default 15
    pub near_pir_threshold: u16,
    /// Path to backplate serial device file, default "/dev/ttyO2"
    pub serial_port: String,
    /// HVAC wiring configuration, default `{ heat_wire: "W1", cool_wire: "Y1" }`.
    /// Valid wire names: W1, Y1, G, OB, W2, Y2, Star.
    pub wiring: WireConfig,
}

/// Whether backplate options are the defaults: threshold 15, serial port
/// "/dev/ttyO2", heat on W1, cool on Y1, fan on G.
pub open spec fn is_default_backplate(o: BackplateOptions) -> bool {
    &&& o.near_pir_threshold == 15
    &&& o.serial_port@ == "/dev/ttyO2"@
    &&& o.wiring == (WireConfig::HeatAndCool {
        heat_wire: WireId::W1,
        cool_wire: WireId::Y1,
        fan_wire: WireId::G,
    })
}

impl Default for BackplateOptions {
    fn default() -> (o: Self)
        ensures
            is_default_backplate(o),
    {
        BackplateOptions {
            near_pir_threshold: 15,
            serial_port: String::from_str("/dev/ttyO2"),
            wiring: WireConfig::HeatAndCool {
                heat_wire: WireId::W1,
                cool_wire: WireId::Y1,
                fan_wire: WireId::G,
            },
        }
    }
}

/// Terminal on the backplate.
#[derive(Debug, Clone, Copy, PartialEq, Eq, Structural)]
pub enum WireId {
    W1,
    Y1,
    G,
    OB,
    W2,
    Y2,
    Star,
}

/// Which terminal drives which HVAC function.
#[derive(Debug, Clone, Copy, PartialEq, Eq, Structural)]
pub enum WireConfig {
    HeatAndCool { heat_wire: WireId, cool_wire: WireId, fan_wire: WireId },
}

} // verus!
