//! The property tag registry: the closed set of recognized tags, the decode
//! rule attached to each, and the kinds a configuration item may declare.

use vstd::prelude::*;

verus! {

/// Raw tag value announcing the creation of a module.
pub const TAG_MODULE_CREATE: i32 = 0x0;
/// Raw tag value announcing the creation of a configuration item.
pub const TAG_CONFIG_CREATE: i32 = 0x1;
/// Raw tag value carrying a module's shortcut list.
pub const TAG_MODULE_SHORTCUT: i32 = 0x101;
/// Raw tag value carrying a module's capability string.
pub const TAG_MODULE_CAPABILITY: i32 = 0x102;
/// Raw tag value carrying a module's score.
pub const TAG_MODULE_SCORE: i32 = 0x103;
/// Raw tag value announcing a module's open callback.
pub const TAG_MODULE_CB_OPEN: i32 = 0x104;
/// Raw tag value announcing a module's close callback.
pub const TAG_MODULE_CB_CLOSE: i32 = 0x105;
/// Raw tag value declaring that the module must not be unloaded.
pub const TAG_MODULE_NO_UNLOAD: i32 = 0x106;
/// Raw tag value carrying a module's name.
pub const TAG_MODULE_NAME: i32 = 0x107;
/// Raw tag value carrying a module's short name.
pub const TAG_MODULE_SHORTNAME: i32 = 0x108;
/// Raw tag value carrying a module's description.
pub const TAG_MODULE_DESCRIPTION: i32 = 0x109;
/// Raw tag value carrying a module's help text.
pub const TAG_MODULE_HELP: i32 = 0x10A;
/// Raw tag value selecting a module's translation text domain.
pub const TAG_MODULE_TEXTDOMAIN: i32 = 0x10B;
/// Raw tag value carrying a configuration item's name.
pub const TAG_CONFIG_NAME: i32 = 0x1000;
/// Raw tag value carrying a configuration item's value.
pub const TAG_CONFIG_VALUE: i32 = 0x1001;
/// Raw tag value carrying a configuration item's range.
pub const TAG_CONFIG_RANGE: i32 = 0x1002;
/// Raw tag value marking a configuration item volatile.
pub const TAG_CONFIG_VOLATILE: i32 = 0x1004;
/// Raw tag value marking a configuration item removed.
pub const TAG_CONFIG_REMOVED: i32 = 0x1007;
/// Raw tag value carrying a configuration item's capability string.
pub const TAG_CONFIG_CAPABILITY: i32 = 0x1008;
/// Raw tag value announcing a configuration item's shortcut.
pub const TAG_CONFIG_SHORTCUT: i32 = 0x1009;
/// Raw tag value marking a configuration item safe.
pub const TAG_CONFIG_SAFE: i32 = 0x100B;
/// Raw tag value carrying a configuration item's description.
pub const TAG_CONFIG_DESC: i32 = 0x100C;
/// Raw tag value announcing a configuration item's choice list.
pub const TAG_CONFIG_LIST: i32 = 0x100F;

/// Masked kind value declaring a floating-point configuration item.
pub const CONFIG_ITEM_FLOAT: i32 = 0x20;
/// Masked kind value declaring an integer configuration item.
pub const CONFIG_ITEM_INTEGER: i32 = 0x40;
/// Masked kind value declaring a boolean configuration item.
pub const CONFIG_ITEM_BOOL: i32 = 0x60;
/// Masked kind value declaring a string configuration item.
pub const CONFIG_ITEM_STRING: i32 = 0x80;

/// The closed set of property tags this decoder recognizes. The raw integer
/// values announced by a plugin map onto these through [`tag_from_raw`];
/// every other raw value is unrecognized.
#[derive(Clone, Copy, Debug, PartialEq, Eq, Structural)]
pub enum PropertyTag {
    ModuleCreate,
    ConfigCreate,
    ModuleShortcut,
    ModuleCapability,
    ModuleScore,
    ModuleCallbackOpen,
    ModuleCallbackClose,
    ModuleNoUnload,
    ModuleName,
    ModuleShortname,
    ModuleDescription,
    ModuleHelp,
    ModuleTextDomain,
    ConfigName,
    ConfigValue,
    ConfigRange,
    ConfigVolatile,
    ConfigRemoved,
    ConfigCapability,
    ConfigShortcut,
    ConfigSafe,
    ConfigDesc,
    ConfigList,
}

/// The kinds of value a configuration item may declare, derived from the
/// masked low bits of the raw value carried by a `config-create` property.
#[derive(Clone, Copy, Debug, PartialEq, Eq, Structural)]
pub enum ConfigItemKind {
    Float,
    Integer,
    Bool,
    String,
}

/// The extraction plan attached to one tag: which arguments follow the tag
/// in the variadic call, in which order, and how to assemble them.
#[derive(Clone, Copy, Debug, PartialEq, Eq, Structural)]
pub enum DecodeRule {
    /// No arguments follow the tag.
    NoPayload,
    /// One string pointer follows; it becomes one owned string.
    OneString,
    /// One signed integer follows; it becomes the property's value.
    OneInt,
    /// One signed integer follows; its masked high bits select a
    /// [`ConfigItemKind`].
    ConfigKind,
    /// An unsigned count follows, then a pointer to that many string
    /// pointers; they become an ordered sequence of owned strings.
    StringList,
}

/// The tag, if any, that a raw announced value names.
pub open spec fn spec_tag_from_raw(raw: i32) -> Option<PropertyTag> {
    if raw == TAG_MODULE_CREATE {
        Some(PropertyTag::ModuleCreate)
    } else if raw == TAG_CONFIG_CREATE {
        Some(PropertyTag::ConfigCreate)
    } else if raw == TAG_MODULE_SHORTCUT {
        Some(PropertyTag::ModuleShortcut)
    } else if raw == TAG_MODULE_CAPABILITY {
        Some(PropertyTag::ModuleCapability)
    } else if raw == TAG_MODULE_SCORE {
        Some(PropertyTag::ModuleScore)
    } else if raw == TAG_MODULE_CB_OPEN {
        Some(PropertyTag::ModuleCallbackOpen)
    } else if raw == TAG_MODULE_CB_CLOSE {
        Some(PropertyTag::ModuleCallbackClose)
    } else if raw == TAG_MODULE_NO_UNLOAD {
        Some(PropertyTag::ModuleNoUnload)
    } else if raw == TAG_MODULE_NAME {
        Some(PropertyTag::ModuleName)
    } else if raw == TAG_MODULE_SHORTNAME {
        Some(PropertyTag::ModuleShortname)
    } else if raw == TAG_MODULE_DESCRIPTION {
        Some(PropertyTag::ModuleDescription)
    } else if raw == TAG_MODULE_HELP {
        Some(PropertyTag::ModuleHelp)
    } else if raw == TAG_MODULE_TEXTDOMAIN {
        Some(PropertyTag::ModuleTextDomain)
    } else if raw == TAG_CONFIG_NAME {
        Some(PropertyTag::ConfigName)
    } else if raw == TAG_CONFIG_VALUE {
        Some(PropertyTag::ConfigValue)
    } else if raw == TAG_CONFIG_RANGE {
        Some(PropertyTag::ConfigRange)
    } else if raw == TAG_CONFIG_VOLATILE {
        Some(PropertyTag::ConfigVolatile)
    } else if raw == TAG_CONFIG_REMOVED {
        Some(PropertyTag::ConfigRemoved)
    } else if raw == TAG_CONFIG_CAPABILITY {
        Some(PropertyTag::ConfigCapability)
    } else if raw == TAG_CONFIG_SHORTCUT {
        Some(PropertyTag::ConfigShortcut)
    } else if raw == TAG_CONFIG_SAFE {
        Some(PropertyTag::ConfigSafe)
    } else if raw == TAG_CONFIG_DESC {
        Some(PropertyTag::ConfigDesc)
    } else if raw == TAG_CONFIG_LIST {
        Some(PropertyTag::ConfigList)
    } else {
        None
    }
}

/// Maps a raw announced value to the tag it names, or `None` for a value
/// outside the recognized set.
pub fn tag_from_raw(raw: i32) -> (tag: Option<PropertyTag>)
    ensures
        tag == spec_tag_from_raw(raw),
{
    if raw == TAG_MODULE_CREATE {
        Some(PropertyTag::ModuleCreate)
    } else if raw == TAG_CONFIG_CREATE {
        Some(PropertyTag::ConfigCreate)
    } else if raw == TAG_MODULE_SHORTCUT {
        Some(PropertyTag::ModuleShortcut)
    } else if raw == TAG_MODULE_CAPABILITY {
        Some(PropertyTag::ModuleCapability)
    } else if raw == TAG_MODULE_SCORE {
        Some(PropertyTag::ModuleScore)
    } else if raw == TAG_MODULE_CB_OPEN {
        Some(PropertyTag::ModuleCallbackOpen)
    } else if raw == TAG_MODULE_CB_CLOSE {
        Some(PropertyTag::ModuleCallbackClose)
    } else if raw == TAG_MODULE_NO_UNLOAD {
        Some(PropertyTag::ModuleNoUnload)
    } else if raw == TAG_MODULE_NAME {
        Some(PropertyTag::ModuleName)
    } else if raw == TAG_MODULE_SHORTNAME {
        Some(PropertyTag::ModuleShortname)
    } else if raw == TAG_MODULE_DESCRIPTION {
        Some(PropertyTag::ModuleDescription)
    } else if raw == TAG_MODULE_HELP {
        Some(PropertyTag::ModuleHelp)
    } else if raw == TAG_MODULE_TEXTDOMAIN {
        Some(PropertyTag::ModuleTextDomain)
    } else if raw == TAG_CONFIG_NAME {
        Some(PropertyTag::ConfigName)
    } else if raw == TAG_CONFIG_VALUE {
        Some(PropertyTag::ConfigValue)
    } else if raw == TAG_CONFIG_RANGE {
        Some(PropertyTag::ConfigRange)
    } else if raw == TAG_CONFIG_VOLATILE {
        Some(PropertyTag::ConfigVolatile)
    } else if raw == TAG_CONFIG_REMOVED {
        Some(PropertyTag::ConfigRemoved)
    } else if raw == TAG_CONFIG_CAPABILITY {
        Some(PropertyTag::ConfigCapability)
    } else if raw == TAG_CONFIG_SHORTCUT {
        Some(PropertyTag::ConfigShortcut)
    } else if raw == TAG_CONFIG_SAFE {
        Some(PropertyTag::ConfigSafe)
    } else if raw == TAG_CONFIG_DESC {
        Some(PropertyTag::ConfigDesc)
    } else if raw == TAG_CONFIG_LIST {
        Some(PropertyTag::ConfigList)
    } else {
        None
    }
}

/// The decode rule attached to each recognized tag. Total over the tag set:
/// every tag has exactly this one rule.
pub open spec fn spec_rule_for(tag: PropertyTag) -> DecodeRule {
    match tag {
        PropertyTag::ModuleCreate => DecodeRule::NoPayload,
        PropertyTag::ConfigCreate => DecodeRule::ConfigKind,
        PropertyTag::ModuleShortcut => DecodeRule::StringList,
        PropertyTag::ModuleCapability => DecodeRule::OneString,
        PropertyTag::ModuleScore => DecodeRule::OneInt,
        PropertyTag::ModuleCallbackOpen => DecodeRule::NoPayload,
        PropertyTag::ModuleCallbackClose => DecodeRule::NoPayload,
        PropertyTag::ModuleNoUnload => DecodeRule::NoPayload,
        PropertyTag::ModuleName => DecodeRule::OneString,
        PropertyTag::ModuleShortname => DecodeRule::OneString,
        PropertyTag::ModuleDescription => DecodeRule::OneString,
        PropertyTag::ModuleHelp => DecodeRule::OneString,
        PropertyTag::ModuleTextDomain => DecodeRule::NoPayload,
        PropertyTag::ConfigName => DecodeRule::OneString,
        PropertyTag::ConfigValue => DecodeRule::NoPayload,
        PropertyTag::ConfigRange => DecodeRule::NoPayload,
        PropertyTag::ConfigVolatile => DecodeRule::NoPayload,
        PropertyTag::ConfigRemoved => DecodeRule::NoPayload,
        PropertyTag::ConfigCapability => DecodeRule::OneString,
        PropertyTag::ConfigShortcut => DecodeRule::NoPayload,
        PropertyTag::ConfigSafe => DecodeRule::NoPayload,
        PropertyTag::ConfigDesc => DecodeRule::NoPayload,
        PropertyTag::ConfigList => DecodeRule::NoPayload,
    }
}

/// Looks up the decode rule for a recognized tag in the registry.
pub fn rule_for(tag: PropertyTag) -> (rule: DecodeRule)
    ensures
        rule == spec_rule_for(tag),
{
    match tag {
        PropertyTag::ModuleCreate => DecodeRule::NoPayload,
        PropertyTag::ConfigCreate => DecodeRule::ConfigKind,
        PropertyTag::ModuleShortcut => DecodeRule::StringList,
        PropertyTag::ModuleCapability => DecodeRule::OneString,
        PropertyTag::ModuleScore => DecodeRule::OneInt,
        PropertyTag::ModuleCallbackOpen => DecodeRule::NoPayload,
        PropertyTag::ModuleCallbackClose => DecodeRule::NoPayload,
        PropertyTag::ModuleNoUnload => DecodeRule::NoPayload,
        PropertyTag::ModuleName => DecodeRule::OneString,
        PropertyTag::ModuleShortname => DecodeRule::OneString,
        PropertyTag::ModuleDescription => DecodeRule::OneString,
        PropertyTag::ModuleHelp => DecodeRule::OneString,
        PropertyTag::ModuleTextDomain => DecodeRule::NoPayload,
        PropertyTag::ConfigName => DecodeRule::OneString,
        PropertyTag::ConfigValue => DecodeRule::NoPayload,
        PropertyTag::ConfigRange => DecodeRule::NoPayload,
        PropertyTag::ConfigVolatile => DecodeRule::NoPayload,
        PropertyTag::ConfigRemoved => DecodeRule::NoPayload,
        PropertyTag::ConfigCapability => DecodeRule::OneString,
        PropertyTag::ConfigShortcut => DecodeRule::NoPayload,
        PropertyTag::ConfigSafe => DecodeRule::NoPayload,
        PropertyTag::ConfigDesc => DecodeRule::NoPayload,
        PropertyTag::ConfigList => DecodeRule::NoPayload,
    }
}

/// The registry is a deterministic total mapping: every tag in the closed
/// set has exactly one rule, so two lookups of equal tags always give equal
/// rules.
pub proof fn lemma_rule_for_deterministic(t1: PropertyTag, t2: PropertyTag)
    requires
        t1 == t2,
    ensures
        spec_rule_for(t1) == spec_rule_for(t2),
{
}

/// The configuration item kind, if any, declared by the raw value carried by
/// a `config-create` property: the low four bits are masked off and the
/// remainder matched against the known kind values.
pub open spec fn spec_kind_from_raw(raw: i32) -> Option<ConfigItemKind> {
    let masked = raw & !0xF;
    if masked == CONFIG_ITEM_FLOAT {
        Some(ConfigItemKind::Float)
    } else if masked == CONFIG_ITEM_INTEGER {
        Some(ConfigItemKind::Integer)
    } else if masked == CONFIG_ITEM_BOOL {
        Some(ConfigItemKind::Bool)
    } else if masked == CONFIG_ITEM_STRING {
        Some(ConfigItemKind::String)
    } else {
        None
    }
}

/// Masks the low four bits off a raw `config-create` value and matches the
/// remainder against the known configuration item kinds. A remainder
/// matching no kind yields `None`: the payload is unrecognized, which is
/// not an error.
pub fn kind_from_raw(raw: i32) -> (kind: Option<ConfigItemKind>)
    ensures
        kind == spec_kind_from_raw(raw),
{
    let masked = raw & !0xF;
    if masked == CONFIG_ITEM_FLOAT {
        Some(ConfigItemKind::Float)
    } else if masked == CONFIG_ITEM_INTEGER {
        Some(ConfigItemKind::Integer)
    } else if masked == CONFIG_ITEM_BOOL {
        Some(ConfigItemKind::Bool)
    } else if masked == CONFIG_ITEM_STRING {
        Some(ConfigItemKind::String)
    } else {
        None
    }
}

} // verus!
