use vlc_module_tool::cursor::{ArgCursor, ArgValue};
use vlc_module_tool::decode::{decode, DecodeOutcome, Property};
use vlc_module_tool::property::{
    kind_from_raw, rule_for, tag_from_raw, ConfigItemKind, DecodeRule, PropertyTag,
    CONFIG_ITEM_BOOL, CONFIG_ITEM_FLOAT, CONFIG_ITEM_INTEGER, CONFIG_ITEM_STRING,
    TAG_CONFIG_CREATE, TAG_MODULE_CAPABILITY, TAG_MODULE_CREATE, TAG_MODULE_NAME,
    TAG_MODULE_SCORE, TAG_MODULE_SHORTCUT,
};

fn all_tags() -> Vec<PropertyTag> {
    vec![
        PropertyTag::ModuleCreate,
        PropertyTag::ConfigCreate,
        PropertyTag::ModuleShortcut,
        PropertyTag::ModuleCapability,
        PropertyTag::ModuleScore,
        PropertyTag::ModuleCallbackOpen,
        PropertyTag::ModuleCallbackClose,
        PropertyTag::ModuleNoUnload,
        PropertyTag::ModuleName,
        PropertyTag::ModuleShortname,
        PropertyTag::ModuleDescription,
        PropertyTag::ModuleHelp,
        PropertyTag::ModuleTextDomain,
        PropertyTag::ConfigName,
        PropertyTag::ConfigValue,
        PropertyTag::ConfigRange,
        PropertyTag::ConfigVolatile,
        PropertyTag::ConfigRemoved,
        PropertyTag::ConfigCapability,
        PropertyTag::ConfigShortcut,
        PropertyTag::ConfigSafe,
        PropertyTag::ConfigDesc,
        PropertyTag::ConfigList,
    ]
}

#[test]
fn rule_for_is_total_and_deterministic() {
    for tag in all_tags() {
        let first = rule_for(tag);
        let second = rule_for(tag);
        assert_eq!(first, second);
    }
}

#[test]
fn rule_for_assigns_the_documented_rules() {
    assert_eq!(rule_for(PropertyTag::ModuleCreate), DecodeRule::NoPayload);
    assert_eq!(rule_for(PropertyTag::ConfigCreate), DecodeRule::ConfigKind);
    assert_eq!(rule_for(PropertyTag::ModuleShortcut), DecodeRule::StringList);
    assert_eq!(rule_for(PropertyTag::ModuleCapability), DecodeRule::OneString);
    assert_eq!(rule_for(PropertyTag::ModuleScore), DecodeRule::OneInt);
    assert_eq!(rule_for(PropertyTag::ModuleName), DecodeRule::OneString);
    assert_eq!(rule_for(PropertyTag::ModuleShortname), DecodeRule::OneString);
    assert_eq!(rule_for(PropertyTag::ModuleDescription), DecodeRule::OneString);
    assert_eq!(rule_for(PropertyTag::ModuleHelp), DecodeRule::OneString);
    assert_eq!(rule_for(PropertyTag::ModuleTextDomain), DecodeRule::NoPayload);
    assert_eq!(rule_for(PropertyTag::ConfigName), DecodeRule::OneString);
    assert_eq!(rule_for(PropertyTag::ConfigCapability), DecodeRule::OneString);
    assert_eq!(rule_for(PropertyTag::ConfigValue), DecodeRule::NoPayload);
}

#[test]
fn tag_from_raw_covers_the_closed_set() {
    assert_eq!(tag_from_raw(TAG_MODULE_CREATE), Some(PropertyTag::ModuleCreate));
    assert_eq!(tag_from_raw(TAG_CONFIG_CREATE), Some(PropertyTag::ConfigCreate));
    assert_eq!(tag_from_raw(TAG_MODULE_SHORTCUT), Some(PropertyTag::ModuleShortcut));
    assert_eq!(tag_from_raw(TAG_MODULE_CAPABILITY), Some(PropertyTag::ModuleCapability));
    assert_eq!(tag_from_raw(TAG_MODULE_SCORE), Some(PropertyTag::ModuleScore));
    assert_eq!(tag_from_raw(0x104), Some(PropertyTag::ModuleCallbackOpen));
    assert_eq!(tag_from_raw(0x105), Some(PropertyTag::ModuleCallbackClose));
    assert_eq!(tag_from_raw(0x106), Some(PropertyTag::ModuleNoUnload));
    assert_eq!(tag_from_raw(0x107), Some(PropertyTag::ModuleName));
    assert_eq!(tag_from_raw(0x108), Some(PropertyTag::ModuleShortname));
    assert_eq!(tag_from_raw(0x109), Some(PropertyTag::ModuleDescription));
    assert_eq!(tag_from_raw(0x10A), Some(PropertyTag::ModuleHelp));
    assert_eq!(tag_from_raw(0x10B), Some(PropertyTag::ModuleTextDomain));
    assert_eq!(tag_from_raw(0x1000), Some(PropertyTag::ConfigName));
    assert_eq!(tag_from_raw(0x1001), Some(PropertyTag::ConfigValue));
    assert_eq!(tag_from_raw(0x1002), Some(PropertyTag::ConfigRange));
    assert_eq!(tag_from_raw(0x1004), Some(PropertyTag::ConfigVolatile));
    assert_eq!(tag_from_raw(0x1007), Some(PropertyTag::ConfigRemoved));
    assert_eq!(tag_from_raw(0x1008), Some(PropertyTag::ConfigCapability));
    assert_eq!(tag_from_raw(0x1009), Some(PropertyTag::ConfigShortcut));
    assert_eq!(tag_from_raw(0x100B), Some(PropertyTag::ConfigSafe));
    assert_eq!(tag_from_raw(0x100C), Some(PropertyTag::ConfigDesc));
    assert_eq!(tag_from_raw(0x100F), Some(PropertyTag::ConfigList));
    assert_eq!(tag_from_raw(0x100), None);
    assert_eq!(tag_from_raw(0x1003), None);
    assert_eq!(tag_from_raw(0xFFFF), None);
    assert_eq!(tag_from_raw(-1), None);
}

#[test]
fn no_payload_tag_never_advances_the_cursor() {
    let args = vec![ArgValue::Int(7), ArgValue::Uint(9)];
    let mut cursor = ArgCursor::new(args);
    assert_eq!(cursor.remaining(), 2);
    let out = decode(TAG_MODULE_CREATE, &mut cursor);
    assert_eq!(out, DecodeOutcome::Decoded(Property::ModuleCreate));
    assert_eq!(cursor.remaining(), 2);
}

#[test]
fn shortcut_list_with_count_zero_is_an_empty_sequence() {
    let args = vec![ArgValue::Uint(0), ArgValue::StrArray(vec![])];
    let mut cursor = ArgCursor::new(args);
    let out = decode(TAG_MODULE_SHORTCUT, &mut cursor);
    assert_eq!(out, DecodeOutcome::Decoded(Property::ModuleShortcut(vec![])));
    assert_eq!(cursor.remaining(), 0);
}

#[test]
fn shortcut_list_extracts_count_strings_in_source_order() {
    let arr = vec![b"a".to_vec(), b"b".to_vec(), b"c".to_vec()];
    let args = vec![ArgValue::Uint(3), ArgValue::StrArray(arr)];
    let mut cursor = ArgCursor::new(args);
    let out = decode(TAG_MODULE_SHORTCUT, &mut cursor);
    let expected = vec!["a".to_string(), "b".to_string(), "c".to_string()];
    assert_eq!(out, DecodeOutcome::Decoded(Property::ModuleShortcut(expected)));
}

#[test]
fn shortcut_list_reads_only_the_announced_count() {
    let arr = vec![b"kept".to_vec(), b"ignored".to_vec()];
    let args = vec![ArgValue::Uint(1), ArgValue::StrArray(arr)];
    let mut cursor = ArgCursor::new(args);
    let out = decode(TAG_MODULE_SHORTCUT, &mut cursor);
    assert_eq!(out, DecodeOutcome::Decoded(Property::ModuleShortcut(vec!["kept".to_string()])));
}

#[test]
fn config_create_with_integer_kind_yields_integer() {
    // Low bits carry flags; the masked remainder 0x40 names the integer kind.
    let args = vec![ArgValue::Int(0x4A)];
    let mut cursor = ArgCursor::new(args);
    let out = decode(TAG_CONFIG_CREATE, &mut cursor);
    assert_eq!(out, DecodeOutcome::Decoded(Property::ConfigCreate(ConfigItemKind::Integer)));
    assert_eq!(cursor.remaining(), 0);
}

#[test]
fn config_create_with_unknown_kind_is_payload_unrecognized() {
    let args = vec![ArgValue::Int(0x7)];
    let mut cursor = ArgCursor::new(args);
    let out = decode(TAG_CONFIG_CREATE, &mut cursor);
    assert_eq!(out, DecodeOutcome::PayloadUnrecognized);
    assert_eq!(cursor.remaining(), 0);
}

#[test]
fn kind_from_raw_masks_and_matches_every_kind() {
    assert_eq!(kind_from_raw(CONFIG_ITEM_FLOAT), Some(ConfigItemKind::Float));
    assert_eq!(kind_from_raw(CONFIG_ITEM_INTEGER), Some(ConfigItemKind::Integer));
    assert_eq!(kind_from_raw(CONFIG_ITEM_BOOL), Some(ConfigItemKind::Bool));
    assert_eq!(kind_from_raw(CONFIG_ITEM_STRING), Some(ConfigItemKind::String));
    assert_eq!(kind_from_raw(0x2F), Some(ConfigItemKind::Float));
    assert_eq!(kind_from_raw(0x81), Some(ConfigItemKind::String));
    assert_eq!(kind_from_raw(0x0), None);
    assert_eq!(kind_from_raw(0xF0), None);
}

#[test]
fn unrecognized_tag_extracts_nothing() {
    let args = vec![ArgValue::Int(1), ArgValue::Uint(2)];
    let mut cursor = ArgCursor::new(args);
    let out = decode(0xFFFF, &mut cursor);
    assert_eq!(out, DecodeOutcome::TagUnrecognized);
    assert_eq!(cursor.remaining(), 2);
}

#[test]
fn score_is_the_extracted_integer() {
    let args = vec![ArgValue::Int(50)];
    let mut cursor = ArgCursor::new(args);
    let out = decode(TAG_MODULE_SCORE, &mut cursor);
    assert_eq!(out, DecodeOutcome::Decoded(Property::ModuleScore(50)));
}

#[test]
fn string_round_trip_is_byte_identical_for_valid_utf8() {
    let args = vec![ArgValue::Str("demo".as_bytes().to_vec())];
    let mut cursor = ArgCursor::new(args);
    let out = decode(TAG_MODULE_NAME, &mut cursor);
    match out {
        DecodeOutcome::Decoded(Property::ModuleName(s)) => {
            assert_eq!(s.as_bytes(), "demo".as_bytes());
        }
        other => panic!("unexpected outcome {:?}", other),
    }
}

#[test]
fn invalid_byte_sequences_are_substituted_not_rejected() {
    let args = vec![ArgValue::Str(vec![0x66, 0xFF, 0x6F])];
    let mut cursor = ArgCursor::new(args);
    let out = decode(TAG_MODULE_NAME, &mut cursor);
    assert_eq!(out, DecodeOutcome::Decoded(Property::ModuleName("f\u{FFFD}o".to_string())));
}

#[test]
fn capability_string_is_extracted() {
    let args = vec![ArgValue::Str(b"access".to_vec())];
    let mut cursor = ArgCursor::new(args);
    let out = decode(TAG_MODULE_CAPABILITY, &mut cursor);
    assert_eq!(out, DecodeOutcome::Decoded(Property::ModuleCapability("access".to_string())));
}
