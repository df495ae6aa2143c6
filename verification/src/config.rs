//! The structured configuration block and the device-registration plan.
//!
//! A script may open with a small structured document naming the virtual
//! output device's identity and the symbolic key names to enable.  This
//! module fills absent identity options with their fixed defaults and
//! resolves the key names into the exact set of key codes the output device
//! registers with the kernel driver.

use vstd::prelude::*;

verus! {

/// Output-device identity options, each absent when the configuration block
/// does not set it.
#[derive(Clone, Debug)]
pub struct DeviceConfig {
    pub name: Option<String>,
    pub bustype: Option<u16>,
    pub vendor: Option<u16>,
    pub product: Option<u16>,
    pub version: Option<u16>,
}

/// Event-enabling options of the configuration block.
#[derive(Clone, Debug)]
pub struct EventsConfig {
    /// Symbolic names of the keys to enable, absent when the block names
    /// none.
    pub keys: Option<Vec<String>>,
}

/// The whole structured configuration document of one script.
#[derive(Clone, Debug)]
pub struct ScriptConfig {
    pub device: Option<DeviceConfig>,
    pub events: EventsConfig,
}

impl Default for ScriptConfig {
    /// The configuration of a script with no block: nothing set.
    fn default() -> (r: Self)
        ensures
            r.device is None,
            r.events.keys is None,
    {
        ScriptConfig { device: None, events: EventsConfig { keys: None } }
    }
}

/// The resolved identity of the virtual output device, every option filled.
#[derive(Clone, Debug)]
pub struct DeviceSetup {
    pub name: String,
    pub bustype: u16,
    pub vendor: u16,
    pub product: u16,
    pub version: u16,
}

impl DeviceConfig {
    /// An identity with nothing set.
    pub fn empty() -> (r: Self)
        ensures
            r.name is None,
            r.bustype is None,
            r.vendor is None,
            r.product is None,
            r.version is None,
    {
        DeviceConfig { name: None, bustype: None, vendor: None, product: None, version: None }
    }

    /// Fill every absent identity option with its fixed default.
    pub fn resolve(self) -> (r: DeviceSetup)
        ensures
            r.name@ == match self.name {
                Some(n) => n@,
                None => "Devicey McDeviceFace"@,
            },
            r.bustype == match self.bustype {
                Some(b) => b,
                None => 0x6u16,
            },
            r.vendor == match self.vendor {
                Some(v) => v,
                None => 0x69u16,
            },
            r.product == match self.product {
                Some(p) => p,
                None => 69u16,
            },
            r.version == match self.version {
                Some(v) => v,
                None => 0u16,
            },
    {
        let name = match self.name {
            Some(n) => n,
            None => String::from_str("Devicey McDeviceFace"),
        };
        DeviceSetup {
            name,
            bustype: self.bustype.unwrap_or(0x6),
            vendor: self.vendor.unwrap_or(0x69),
            product: self.product.unwrap_or(69),
            version: self.version.unwrap_or(0),
        }
    }
}

/// A failure to make sense of the configuration block.
#[derive(Clone, Debug)]
pub enum ConfigError {
    /// A configured key name that the key table does not know.
    UnknownKey(String),
}

impl ConfigError {
    /// A diagnostic line naming the failing key.
    pub fn message(&self) -> (r: String)
        ensures
            match self {
                ConfigError::UnknownKey(n) => r@ == "unknown key in script config: "@ + n@,
            },
    {
        match self {
            ConfigError::UnknownKey(n) => String::from_str("unknown key in script config: ").concat(
                n.as_str(),
            ),
        }
    }
}

/// What the key table answers for a symbolic name: the key code registered
/// under that exact name, or nothing when the table does not know it.
pub uninterp spec fn key_code_of(name: Seq<char>) -> Option<u16>;

/// Relies on `evdev::KeyCode`'s `FromStr` implementation: it looks the name
/// up in the crate's fixed name table, so the outcome depends on the name
/// alone.
#[verifier::external_body]
fn key_code_from_name(name: &str) -> (r: Option<u16>)
    ensures
        r == key_code_of(name@),
{
    match <evdev::KeyCode as std::str::FromStr>::from_str(name) {
        Ok(k) => Some(k.0),
        Err(_) => None,
    }
}

/// The table name of configured key `name`: the fixed key prefix, then the
/// name itself.
pub open spec fn key_table_name(name: Seq<char>) -> Seq<char> {
    "KEY_"@ + name
}

/// The key code a configured name resolves to, if the table knows it.
pub open spec fn resolved_key(name: Seq<char>) -> Option<u16> {
    key_code_of(key_table_name(name))
}

/// Prefix a configured key name into its table name.
fn key_name(name: &String) -> (r: String)
    ensures
        r@ == key_table_name(name@),
{
    String::from_str("KEY_").concat(name.as_str())
}

/// Every configured name is known to the key table.
pub open spec fn all_keys_known(names: Seq<String>) -> bool {
    forall|i: int| 0 <= i < names.len() ==> #[trigger] resolved_key(names[i]@) is Some
}

/// `codes` are exactly the resolved codes of `names`, in order.
pub open spec fn codes_of_keys(names: Seq<String>, codes: Seq<u16>) -> bool {
    &&& codes.len() == names.len()
    &&& forall|i: int|
        0 <= i < names.len() ==> Some(#[trigger] codes[i]) == resolved_key(names[i]@)
}

/// Resolve each configured key name to its key code.
///
/// Succeeds — with exactly one code per name, in order — precisely when
/// every name is known to the table; otherwise the error names an unknown
/// key.
pub fn resolve_keys(names: &Vec<String>) -> (r: Result<Vec<u16>, ConfigError>)
    ensures
        r is Ok <==> all_keys_known(names@),
        match r {
            Ok(codes) => codes_of_keys(names@, codes@),
            Err(e) => match e {
                ConfigError::UnknownKey(n) => exists|i: int|
                    0 <= i < names@.len() && #[trigger] names@[i]@ == n@ && resolved_key(n@)
                        is None,
            },
        },
{
    let mut codes: Vec<u16> = Vec::new();
    let n = names.len();
    for i in 0..n
        invariant
            n == names@.len(),
            codes@.len() == i,
            forall|k: int| 0 <= k < i ==> Some(#[trigger] codes@[k]) == resolved_key(names@[k]@),
    {
        let full = key_name(&names[i]);
        match key_code_from_name(full.as_str()) {
            Some(c) => codes.push(c),
            None => {
                proof {
                    assert(resolved_key(names@[i as int]@) is None);
                }
                return Err(ConfigError::UnknownKey(names[i].clone()));
            },
        }
    }
    proof {
        assert forall|i: int| 0 <= i < names@.len() implies #[trigger] resolved_key(names@[i]@)
            is Some by {
            assert(Some(codes@[i]) == resolved_key(names@[i]@));
        }
    }
    Ok(codes)
}

/// The key codes the virtual output device must register with the kernel
/// driver.
#[derive(Debug, PartialEq, Eq)]
pub enum KeyPlan {
    /// Enable every key code.
    AllKeys,
    /// Enable exactly these codes, in this order.
    Keys(Vec<u16>),
}

/// Decide which key codes the output device registers.
///
/// In literal-expression mode the configuration is never consulted and every
/// key code is enabled unconditionally.  Otherwise the configured list is
/// resolved into exactly its codes — the device registers those and nothing
/// more — and an absent list falls back to enabling every key code.
pub fn registration_plan(expr_mode: bool, cfg: &ScriptConfig) -> (r: Result<KeyPlan, ConfigError>)
    ensures
        expr_mode ==> r matches Ok(KeyPlan::AllKeys),
        !expr_mode ==> match cfg.events.keys {
            None => r matches Ok(KeyPlan::AllKeys),
            Some(ks) => {
                &&& (r is Ok <==> all_keys_known(ks@))
                &&& match r {
                    Ok(p) => p matches KeyPlan::Keys(codes) && codes_of_keys(ks@, codes@),
                    Err(e) => match e {
                        ConfigError::UnknownKey(n) => exists|i: int|
                            0 <= i < ks@.len() && #[trigger] ks@[i]@ == n@ && resolved_key(n@)
                                is None,
                    },
                }
            },
        },
{
    if expr_mode {
        Ok(KeyPlan::AllKeys)
    } else {
        match &cfg.events.keys {
            None => Ok(KeyPlan::AllKeys),
            Some(ks) => match resolve_keys(ks) {
                Ok(codes) => Ok(KeyPlan::Keys(codes)),
                Err(e) => Err(e),
            },
        }
    }
}

/// Every key code enabled when no list is configured: the full range the
/// driver registration loop walks.
pub fn all_key_codes() -> (r: Vec<u16>)
    ensures
        r@.len() == 255,
        forall|i: int| 0 <= i < 255 ==> #[trigger] r@[i] == i as u16,
{
    let mut codes: Vec<u16> = Vec::new();
    for i in 0..255u16
        invariant
            codes@.len() == i,
            forall|k: int| 0 <= k < i ==> #[trigger] codes@[k] == k as u16,
    {
        codes.push(i);
    }
    codes
}

/// The path of the virtual-device creation node: the override from the
/// environment when one is set, else the well-known default.
pub fn resolve_output_path(override_path: Option<String>) -> (r: String)
    ensures
        match override_path {
            Some(p) => r == p,
            None => r@ == "/dev/uinput"@,
        },
{
    match override_path {
        Some(p) => p,
        None => String::from_str("/dev/uinput"),
    }
}

} // verus!
