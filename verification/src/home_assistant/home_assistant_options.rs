use vstd::prelude::*;

verus! {

/// Name of the application package; the node-name fallback when the
/// host name cannot be read.
pub const PKG_NAME: &'static str = "retherm";

/// MAC address reported when neither the configuration nor the system
/// provides one.
pub const FAKE_MAC: &'static str = "01:02:03:04:05:06";

/// Home Assistant
///
/// ```toml
/// [home_assistant]
/// friendly_name = "Hallway"
/// encryption_key = "..."
/// ```
#[derive(Debug, Clone, PartialEq, Eq)]
pub struct HomeAssistantOptions {
    /// Object ID used internall by home assistant.
    /// Defaults to "climage.{node_name}".
    pub object_id: Option<String>,
    /// Listen address for ESP Home API server, default "0.0.0.0:6053"
    pub listen_addr: String,
    /// Encryption key as 32 byte base64 string. When not provided, the
    /// connection uses plaintext messages.
    pub encryption_key: Option<String>,
    /// Server info (not typically displayed in Home Assistant).
    /// Defaults to "ReTherm {version}".
    pub server_info: String,
    /// Node name, defaults to the system hostname
    pub node_name: Option<String>,
    /// Friendly name displayed in as label for thermostat control
    pub friendly_name: String,
    /// Manufactuer name, defaults to "Nest"
    pub manufacturer: String,
    /// Model name, defaults to "Gen2 Thermostat"
    pub model: String,
    /// Mac address, defaults to address of system interface address
    pub mac_address: Option<String>,
}

/// The node name: the configured one, else the system host name, else the
/// package name.
pub open spec fn node_name_of(configured: Option<String>, hostname: Option<String>) -> Seq<char> {
    match configured {
        Some(n) => n@,
        None => match hostname {
            Some(h) => h@,
            None => PKG_NAME@,
        },
    }
}

/// The MAC address: the configured one, else the system's, else a fixed
/// placeholder.
pub open spec fn mac_address_of(configured: Option<String>, system: Option<String>) -> Seq<char> {
    match configured {
        Some(m) => m@,
        None => match system {
            Some(m) => m@,
            None => FAKE_MAC@,
        },
    }
}

impl HomeAssistantOptions {
    /// The entity's object id: the configured one, else `climage.` followed
    /// by the node name. `hostname` is the system host name, `None` where it
    /// could not be read.
    pub fn get_object_id(&self, hostname: Option<String>) -> (id: String)
        ensures
            id@ == match self.object_id {
                Some(o) => o@,
                None => "climage."@ + node_name_of(self.node_name, hostname),
            },
    {
        match &self.object_id {
            Some(object_id) => object_id.clone(),
            None => {
                let node = self.get_node_name(hostname);
                String::from_str("climage.").concat(node.as_str())
            },
        }
    }

    /// The node name. `hostname` is the system host name, `None` where it
    /// could not be read.
    pub fn get_node_name(&self, hostname: Option<String>) -> (name: String)
        ensures
            name@ == node_name_of(self.node_name, hostname),
    {
        match &self.node_name {
            Some(node_name) => node_name.clone(),
            None => match hostname {
                Some(h) => h,
                None => String::from_str(PKG_NAME),
            },
        }
    }

    /// The MAC address. `system_mac` is the address of the system interface,
    /// `None` where there is none or it could not be read.
    pub fn get_mac_address(&self, system_mac: Option<String>) -> (mac: String)
        ensures
            mac@ == mac_address_of(self.mac_address, system_mac),
    {
        match &self.mac_address {
            Some(mac_addr) => mac_addr.clone(),
            None => match system_mac {
                Some(m) => m,
                None => String::from_str(FAKE_MAC),
            },
        }
    }
}

/// Whether Home Assistant options are the defaults: listen on
/// "0.0.0.0:6053" without encryption, server info "ReTherm 0.1.0", friendly
/// name "ReTherm Thermostat", made by "Nest", model "Gen2 Thermostat", and
/// object id, node name and MAC address left to be derived.
pub open spec fn is_default_home_assistant(o: HomeAssistantOptions) -> bool {
    &&& o.object_id is None
    &&& o.listen_addr@ == "0.0.0.0:6053"@
    &&& o.encryption_key is None
    &&& o.server_info@ == "ReTherm 0.1.0"@
    &&& o.node_name is None
    &&& o.friendly_name@ == "ReTherm Thermostat"@
    &&& o.manufacturer@ == "Nest"@
    &&& o.model@ == "Gen2 Thermostat"@
    &&& o.mac_address is None
}

impl Default for HomeAssistantOptions {
    fn default() -> (o: Self)
        ensures
            is_default_home_assistant(o),
    {
        HomeAssistantOptions {
            object_id: None,
            listen_addr: String::from_str("0.0.0.0:6053"),
            encryption_key: None,
            server_info: String::from_str("ReTherm 0.1.0"),
            node_name: None,
            friendly_name: String::from_str("ReTherm Thermostat"),
            manufacturer: String::from_str("Nest"),
            model: String::from_str("Gen2 Thermostat"),
            mac_address: None,
        }
    }
}

} // verus!
