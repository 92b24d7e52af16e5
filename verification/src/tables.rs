use vstd::prelude::*;
use crate::property::{Property, PropertyTable};

verus! {

/// The identifier that ends every publisher metadata table.
pub const PROPERTY_ID_END: u32 = 29;

/// The root properties of a publisher.
pub open spec fn publisher_metadata_entries() -> Seq<Property> {
    seq![
        (Property { name: "EvtPublisherMetadataPublisherGuid", id: 0 }),
        (Property { name: "EvtPublisherMetadataResourceFilePath", id: 1 }),
        (Property { name: "EvtPublisherMetadataParameterFilePath", id: 2 }),
        (Property { name: "EvtPublisherMetadataMessageFilePath", id: 3 }),
        (Property { name: "EvtPublisherMetadataHelpLink", id: 4 }),
        (Property { name: "EvtPublisherMetadataPublisherMessageID", id: 5 }),
        (Property { name: "EvtPublisherMetadataChannelReferences", id: 6 }),
        (Property { name: "EvtPublisherMetadataLevels", id: 12 }),
        (Property { name: "EvtPublisherMetadataTasks", id: 16 }),
        (Property { name: "EvtPublisherMetadataOpcodes", id: 21 }),
        (Property { name: "EvtPublisherMetadataKeywords", id: 25 }),
        (Property { name: "EvtPublisherMetadataPropertyIdEND", id: 29 }),
    ]
}

/// The properties of one channel reference of a publisher.
pub open spec fn channel_reference_entries() -> Seq<Property> {
    seq![
        (Property { name: "EvtPublisherMetadataChannelReferencePath", id: 7 }),
        (Property { name: "EvtPublisherMetadataChannelReferenceIndex", id: 8 }),
        (Property { name: "EvtPublisherMetadataChannelReferenceID", id: 9 }),
        (Property { name: "EvtPublisherMetadataChannelReferenceFlags", id: 10 }),
        (Property { name: "EvtPublisherMetadataChannelReferenceMessageID", id: 11 }),
    ]
}

/// The properties of one level of a publisher.
pub open spec fn level_entries() -> Seq<Property> {
    seq![
        (Property { name: "EvtPublisherMetadataLevelName", id: 13 }),
        (Property { name: "EvtPublisherMetadataLevelValue", id: 14 }),
        (Property { name: "EvtPublisherMetadataLevelMessageID", id: 15 }),
    ]
}

/// The properties of one task of a publisher.
pub open spec fn task_entries() -> Seq<Property> {
    seq![
        (Property { name: "EvtPublisherMetadataTaskName", id: 17 }),
        (Property { name: "EvtPublisherMetadataTaskEventGuid", id: 18 }),
        (Property { name: "EvtPublisherMetadataTaskValue", id: 19 }),
        (Property { name: "EvtPublisherMetadataTaskMessageID", id: 20 }),
    ]
}

/// The properties of one opcode of a publisher.
pub open spec fn opcode_entries() -> Seq<Property> {
    seq![
        (Property { name: "EvtPublisherMetadataOpcodeName", id: 22 }),
        (Property { name: "EvtPublisherMetadataOpcodeValue", id: 23 }),
        (Property { name: "EvtPublisherMetadataOpcodeMessageID", id: 24 }),
    ]
}

/// The properties of one keyword of a publisher.
pub open spec fn keyword_entries() -> Seq<Property> {
    seq![
        (Property { name: "EvtPublisherMetadataKeywordName", id: 26 }),
        (Property { name: "EvtPublisherMetadataKeywordValue", id: 27 }),
        (Property { name: "EvtPublisherMetadataKeywordMessageID", id: 28 }),
    ]
}

/// The table of the root properties of a publisher.
pub fn publisher_metadata() -> (table: PropertyTable)
    ensures
        table.entries@ == publisher_metadata_entries(),
        table.terminator == PROPERTY_ID_END,
{
    let mut entries: Vec<Property> = Vec::new();
    entries.push(Property { name: "EvtPublisherMetadataPublisherGuid", id: 0 });
    entries.push(Property { name: "EvtPublisherMetadataResourceFilePath", id: 1 });
    entries.push(Property { name: "EvtPublisherMetadataParameterFilePath", id: 2 });
    entries.push(Property { name: "EvtPublisherMetadataMessageFilePath", id: 3 });
    entries.push(Property { name: "EvtPublisherMetadataHelpLink", id: 4 });
    entries.push(Property { name: "EvtPublisherMetadataPublisherMessageID", id: 5 });
    entries.push(Property { name: "EvtPublisherMetadataChannelReferences", id: 6 });
    entries.push(Property { name: "EvtPublisherMetadataLevels", id: 12 });
    entries.push(Property { name: "EvtPublisherMetadataTasks", id: 16 });
    entries.push(Property { name: "EvtPublisherMetadataOpcodes", id: 21 });
    entries.push(Property { name: "EvtPublisherMetadataKeywords", id: 25 });
    entries.push(Property { name: "EvtPublisherMetadataPropertyIdEND", id: 29 });
    assert(entries@ =~= publisher_metadata_entries());
    PropertyTable { entries, terminator: PROPERTY_ID_END }
}

/// The table of the properties of a channel reference.
pub fn channel_references() -> (table: PropertyTable)
    ensures
        table.entries@ == channel_reference_entries(),
        table.terminator == PROPERTY_ID_END,
{
    let mut entries: Vec<Property> = Vec::new();
    entries.push(Property { name: "EvtPublisherMetadataChannelReferencePath", id: 7 });
    entries.push(Property { name: "EvtPublisherMetadataChannelReferenceIndex", id: 8 });
    entries.push(Property { name: "EvtPublisherMetadataChannelReferenceID", id: 9 });
    entries.push(Property { name: "EvtPublisherMetadataChannelReferenceFlags", id: 10 });
    entries.push(Property { name: "EvtPublisherMetadataChannelReferenceMessageID", id: 11 });
    assert(entries@ =~= channel_reference_entries());
    PropertyTable { entries, terminator: PROPERTY_ID_END }
}

/// The table of the properties of a level.
pub fn levels() -> (table: PropertyTable)
    ensures
        table.entries@ == level_entries(),
        table.terminator == PROPERTY_ID_END,
{
    let mut entries: Vec<Property> = Vec::new();
    entries.push(Property { name: "EvtPublisherMetadataLevelName", id: 13 });
    entries.push(Property { name: "EvtPublisherMetadataLevelValue", id: 14 });
    entries.push(Property { name: "EvtPublisherMetadataLevelMessageID", id: 15 });
    assert(entries@ =~= level_entries());
    PropertyTable { entries, terminator: PROPERTY_ID_END }
}

/// The table of the properties of a task.
pub fn tasks() -> (table: PropertyTable)
    ensures
        table.entries@ == task_entries(),
        table.terminator == PROPERTY_ID_END,
{
    let mut entries: Vec<Property> = Vec::new();
    entries.push(Property { name: "EvtPublisherMetadataTaskName", id: 17 });
    entries.push(Property { name: "EvtPublisherMetadataTaskEventGuid", id: 18 });
    entries.push(Property { name: "EvtPublisherMetadataTaskValue", id: 19 });
    entries.push(Property { name: "EvtPublisherMetadataTaskMessageID", id: 20 });
    assert(entries@ =~= task_entries());
    PropertyTable { entries, terminator: PROPERTY_ID_END }
}

/// The table of the properties of an opcode.
pub fn opcodes() -> (table: PropertyTable)
    ensures
        table.entries@ == opcode_entries(),
        table.terminator == PROPERTY_ID_END,
{
    let mut entries: Vec<Property> = Vec::new();
    entries.push(Property { name: "EvtPublisherMetadataOpcodeName", id: 22 });
    entries.push(Property { name: "EvtPublisherMetadataOpcodeValue", id: 23 });
    entries.push(Property { name: "EvtPublisherMetadataOpcodeMessageID", id: 24 });
    assert(entries@ =~= opcode_entries());
    PropertyTable { entries, terminator: PROPERTY_ID_END }
}

/// The table of the properties of a keyword.
pub fn keywords() -> (table: PropertyTable)
    ensures
        table.entries@ == keyword_entries(),
        table.terminator == PROPERTY_ID_END,
{
    let mut entries: Vec<Property> = Vec::new();
    entries.push(Property { name: "EvtPublisherMetadataKeywordName", id: 26 });
    entries.push(Property { name: "EvtPublisherMetadataKeywordValue", id: 27 });
    entries.push(Property { name: "EvtPublisherMetadataKeywordMessageID", id: 28 });
    assert(entries@ =~= keyword_entries());
    PropertyTable { entries, terminator: PROPERTY_ID_END }
}

} // verus!
