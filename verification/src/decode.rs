//! The property decoder: turns one announced tag plus its argument stream
//! into a structured property, following the registry's rule for that tag.
//!
//! The decoder derives how many arguments to extract purely from the rule,
//! never by probing the stream, and converts every string it extracts into
//! an owned value: nothing it returns refers back into the stream.

use vstd::prelude::*;

use crate::cursor::{arr_of, int_of, str_of, uint_of, ArgCursor, ArgValue};
use crate::property::{
    kind_from_raw, rule_for, spec_kind_from_raw, spec_rule_for, spec_tag_from_raw, tag_from_raw,
    ConfigItemKind, DecodeRule, PropertyTag,
};

verus! {

/// One decoded property: the variant always matches the tag that produced
/// it, and carries exactly the payload that tag's rule specifies.
#[derive(Debug, PartialEq, Eq)]
pub enum Property {
    ModuleCreate,
    ConfigCreate(ConfigItemKind),
    ModuleShortcut(Vec<String>),
    ModuleCapability(String),
    ModuleScore(i32),
    ModuleCallbackOpen,
    ModuleCallbackClose,
    ModuleNoUnload,
    ModuleName(String),
    ModuleShortname(String),
    ModuleDescription(String),
    ModuleHelp(String),
    ModuleTextDomain,
    ConfigName(String),
    ConfigValue,
    ConfigRange,
    ConfigVolatile,
    ConfigRemoved,
    ConfigCapability(String),
    ConfigShortcut,
    ConfigSafe,
    ConfigDesc,
    ConfigList,
}

/// The outcome of decoding one announcement: a structured property, a
/// recognized tag whose payload names no known kind, or an unrecognized
/// tag. Never a silent default, so a caller can count exactly which
/// announcements were recognized.
#[derive(Debug, PartialEq, Eq)]
pub enum DecodeOutcome {
    Decoded(Property),
    PayloadUnrecognized,
    TagUnrecognized,
}

/// The characters that the lossy conversion yields for a byte string: a
/// function of the bytes alone, shared by every string the decoder
/// produces.
pub uninterp spec fn lossy_of(b: Seq<u8>) -> Seq<char>;

/// Relies on String::from_utf8_lossy: converts bytes to characters, never
/// failing; the result depends on the bytes alone, and no bytes give an
/// empty result unless the input was empty.
#[verifier::external_body]
fn lossy_string(b: &Vec<u8>) -> (r: String)
    ensures
        r@ == lossy_of(b@),
        b@.len() == 0 ==> r@.len() == 0,
{
    String::from_utf8_lossy(b).into_owned()
}

/// Whether an argument stream satisfies the extraction plan of one rule:
/// the arguments the rule will extract are present, front first, with the
/// types the rule expects, and an announced string array holds at least as
/// many entries as the count announced before it.
pub open spec fn args_conform(rule: DecodeRule, args: Seq<ArgValue>) -> bool {
    match rule {
        DecodeRule::NoPayload => true,
        DecodeRule::OneString => args.len() >= 1 && args[0] is Str,
        DecodeRule::OneInt => args.len() >= 1 && args[0] is Int,
        DecodeRule::ConfigKind => args.len() >= 1 && args[0] is Int,
        DecodeRule::StringList => args.len() >= 2 && args[0] is Uint && args[1] is StrArray
            && arr_of(args[1]).len() >= uint_of(args[0]),
    }
}

/// Whether an argument stream conforms to the protocol for one raw tag
/// value. An unrecognized tag extracts nothing, so any stream conforms to
/// it. A stream that does not conform is a protocol violation by the
/// announcing module, which the decoder cannot detect at the foreign
/// boundary; its callers must not present one.
pub open spec fn conforms(raw: i32, args: Seq<ArgValue>) -> bool {
    match spec_tag_from_raw(raw) {
        Option::Some(tag) => args_conform(spec_rule_for(tag), args),
        Option::None => true,
    }
}

/// How many arguments decoding one raw tag value consumes from the stream.
pub open spec fn spec_consumed(raw: i32) -> int {
    match spec_tag_from_raw(raw) {
        Option::Some(tag) => match spec_rule_for(tag) {
            DecodeRule::NoPayload => 0,
            DecodeRule::OneString => 1,
            DecodeRule::OneInt => 1,
            DecodeRule::ConfigKind => 1,
            DecodeRule::StringList => 2,
        },
        Option::None => 0,
    }
}

/// The property that a tag without payload decodes to.
pub open spec fn spec_no_payload_property(tag: PropertyTag) -> Property {
    match tag {
        PropertyTag::ModuleCreate => Property::ModuleCreate,
        PropertyTag::ModuleCallbackOpen => Property::ModuleCallbackOpen,
        PropertyTag::ModuleCallbackClose => Property::ModuleCallbackClose,
        PropertyTag::ModuleNoUnload => Property::ModuleNoUnload,
        PropertyTag::ModuleTextDomain => Property::ModuleTextDomain,
        PropertyTag::ConfigValue => Property::ConfigValue,
        PropertyTag::ConfigRange => Property::ConfigRange,
        PropertyTag::ConfigVolatile => Property::ConfigVolatile,
        PropertyTag::ConfigRemoved => Property::ConfigRemoved,
        PropertyTag::ConfigShortcut => Property::ConfigShortcut,
        PropertyTag::ConfigSafe => Property::ConfigSafe,
        PropertyTag::ConfigDesc => Property::ConfigDesc,
        PropertyTag::ConfigList => Property::ConfigList,
        _ => arbitrary(),
    }
}

/// Whether `p` is the property that a single-string tag decodes to when the
/// extracted bytes convert to the characters `s`.
pub open spec fn is_string_property(tag: PropertyTag, p: Property, s: Seq<char>) -> bool {
    match tag {
        PropertyTag::ModuleCapability => p matches Property::ModuleCapability(x) && x@ == s,
        PropertyTag::ModuleName => p matches Property::ModuleName(x) && x@ == s,
        PropertyTag::ModuleShortname => p matches Property::ModuleShortname(x) && x@ == s,
        PropertyTag::ModuleDescription => p matches Property::ModuleDescription(x) && x@ == s,
        PropertyTag::ModuleHelp => p matches Property::ModuleHelp(x) && x@ == s,
        PropertyTag::ConfigName => p matches Property::ConfigName(x) && x@ == s,
        PropertyTag::ConfigCapability => p matches Property::ConfigCapability(x) && x@ == s,
        _ => false,
    }
}

/// What decoding one announcement must yield: given the raw tag value and
/// the argument stream as the decoder received it, exactly this outcome.
pub open spec fn decodes_to(raw: i32, args: Seq<ArgValue>, out: DecodeOutcome) -> bool {
    match spec_tag_from_raw(raw) {
        Option::None => out == DecodeOutcome::TagUnrecognized,
        Option::Some(tag) => match spec_rule_for(tag) {
            DecodeRule::NoPayload => out == DecodeOutcome::Decoded(
                spec_no_payload_property(tag),
            ),
            DecodeRule::OneString => out matches DecodeOutcome::Decoded(p)
                && is_string_property(tag, p, lossy_of(str_of(args[0]))),
            DecodeRule::OneInt => out == DecodeOutcome::Decoded(
                Property::ModuleScore(int_of(args[0])),
            ),
            DecodeRule::ConfigKind => match spec_kind_from_raw(int_of(args[0])) {
                Option::Some(kind) => out == DecodeOutcome::Decoded(Property::ConfigCreate(kind)),
                Option::None => out == DecodeOutcome::PayloadUnrecognized,
            },
            DecodeRule::StringList => out matches DecodeOutcome::Decoded(p)
                && (p matches Property::ModuleShortcut(ss) && ss@.len() == uint_of(args[0]) as int
                    && (forall|j: int|
                        0 <= j < ss@.len() ==> #[trigger] ss@[j]@ == lossy_of(arr_of(args[1])[j]))),
        },
    }
}

/// Assembles the property for a tag whose rule carries no payload.
fn assemble_no_payload(tag: PropertyTag) -> (p: Property)
    requires
        spec_rule_for(tag) == DecodeRule::NoPayload,
    ensures
        p == spec_no_payload_property(tag),
{
    match tag {
        PropertyTag::ModuleCreate => Property::ModuleCreate,
        PropertyTag::ModuleCallbackOpen => Property::ModuleCallbackOpen,
        PropertyTag::ModuleCallbackClose => Property::ModuleCallbackClose,
        PropertyTag::ModuleNoUnload => Property::ModuleNoUnload,
        PropertyTag::ModuleTextDomain => Property::ModuleTextDomain,
        PropertyTag::ConfigValue => Property::ConfigValue,
        PropertyTag::ConfigRange => Property::ConfigRange,
        PropertyTag::ConfigVolatile => Property::ConfigVolatile,
        PropertyTag::ConfigRemoved => Property::ConfigRemoved,
        PropertyTag::ConfigShortcut => Property::ConfigShortcut,
        PropertyTag::ConfigSafe => Property::ConfigSafe,
        PropertyTag::ConfigDesc => Property::ConfigDesc,
        PropertyTag::ConfigList => Property::ConfigList,
        _ => unreached(),
    }
}

/// Assembles the property for a single-string tag around its owned string.
fn assemble_string(tag: PropertyTag, s: String) -> (p: Property)
    requires
        spec_rule_for(tag) == DecodeRule::OneString,
    ensures
        is_string_property(tag, p, s@),
{
    match tag {
        PropertyTag::ModuleCapability => Property::ModuleCapability(s),
        PropertyTag::ModuleName => Property::ModuleName(s),
        PropertyTag::ModuleShortname => Property::ModuleShortname(s),
        PropertyTag::ModuleDescription => Property::ModuleDescription(s),
        PropertyTag::ModuleHelp => Property::ModuleHelp(s),
        PropertyTag::ConfigName => Property::ConfigName(s),
        PropertyTag::ConfigCapability => Property::ConfigCapability(s),
        _ => unreached(),
    }
}

/// Decodes one property announcement: looks the raw tag value up in the
/// registry, extracts from the cursor exactly the arguments the tag's rule
/// names, front first, and assembles the outcome.
///
/// An unrecognized tag, and a tag without payload, leave the cursor exactly
/// where it was. A recognized tag consumes exactly the arguments its rule
/// names, whatever the outcome.
pub fn decode(raw: i32, cursor: &mut ArgCursor) -> (out: DecodeOutcome)
    requires
        conforms(raw, old(cursor)@),
    ensures
        decodes_to(raw, old(cursor)@, out),
        final(cursor)@ == old(cursor)@.skip(spec_consumed(raw)),
        spec_tag_from_raw(raw) is None ==> out == DecodeOutcome::TagUnrecognized
            && final(cursor)@ == old(cursor)@,
        (spec_tag_from_raw(raw) matches Option::Some(t) && spec_rule_for(t)
            == DecodeRule::NoPayload) ==> final(cursor)@ == old(cursor)@,
{
    match tag_from_raw(raw) {
        Option::None => {
            proof {
                assert(cursor@ =~= old(cursor)@.skip(0));
            }
            DecodeOutcome::TagUnrecognized
        },
        Option::Some(tag) => match rule_for(tag) {
            DecodeRule::NoPayload => {
                let p = assemble_no_payload(tag);
                proof {
                    assert(cursor@ =~= old(cursor)@.skip(0));
                }
                DecodeOutcome::Decoded(p)
            },
            DecodeRule::OneString => {
                let b = cursor.next_str();
                let s = lossy_string(&b);
                let p = assemble_string(tag, s);
                proof {
                    assert(cursor@ =~= old(cursor)@.skip(1));
                }
                DecodeOutcome::Decoded(p)
            },
            DecodeRule::OneInt => {
                let v = cursor.next_int();
                proof {
                    assert(cursor@ =~= old(cursor)@.skip(1));
                }
                DecodeOutcome::Decoded(Property::ModuleScore(v))
            },
            DecodeRule::ConfigKind => {
                let v = cursor.next_int();
                proof {
                    assert(cursor@ =~= old(cursor)@.skip(1));
                }
                match kind_from_raw(v) {
                    Option::Some(kind) => DecodeOutcome::Decoded(Property::ConfigCreate(kind)),
                    Option::None => DecodeOutcome::PayloadUnrecognized,
                }
            },
            DecodeRule::StringList => {
                let count = cursor.next_uint();
                let arr = cursor.next_str_array();
                proof {
                    assert(cursor@ =~= old(cursor)@.skip(2));
                }
                let n = count as usize;
                let mut items: Vec<String> = Vec::new();
                let mut i: usize = 0;
                while i < n
                    invariant
                        i <= n,
                        n <= arr@.len(),
                        items@.len() == i as int,
                        forall|j: int|
                            0 <= j < i as int ==> #[trigger] items@[j]@ == lossy_of(arr@[j]@),
                    decreases n - i,
                {
                    let s = lossy_string(&arr[i]);
                    items.push(s);
                    i = i + 1;
                }
                proof {
                    assert(forall|j: int|
                        0 <= j < items@.len() ==> #[trigger] items@[j]@ == lossy_of(
                            arr_of(old(cursor)@[1])[j],
                        ));
                }
                DecodeOutcome::Decoded(Property::ModuleShortcut(items))
            },
        },
    }
}

/// Decoding a shortcut list whose announced count is zero yields an empty
/// ordered sequence of strings, not an error.
pub proof fn lemma_shortcut_list_count_zero(raw: i32, args: Seq<ArgValue>, out: DecodeOutcome)
    requires
        spec_tag_from_raw(raw) == Option::Some(PropertyTag::ModuleShortcut),
        conforms(raw, args),
        uint_of(args[0]) == 0,
        decodes_to(raw, args, out),
    ensures
        out matches DecodeOutcome::Decoded(p) && (p matches Property::ModuleShortcut(ss)
            && ss@.len() == 0),
{
}

} // verus!
