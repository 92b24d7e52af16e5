use vstd::prelude::*;
use vstd::string::StringExecFns;
use crate::json::{
    entry_models, json_entries, json_is_object, json_model, json_rendering, json_set, json_text,
    json_to_string, lists, Json,
};

verus! {

/// The two output forms.
#[derive(Debug, Clone, Copy, PartialEq, Eq, Structural)]
pub enum OutputFormat {
    Text,
    Jsonl,
}

impl OutputFormat {
    /// The format of a given name, if it names one.
    pub open spec fn named(name: Seq<char>) -> Option<OutputFormat> {
        if name == "text"@ {
            Some(OutputFormat::Text)
        } else if name == "jsonl"@ {
            Some(OutputFormat::Jsonl)
        } else {
            None
        }
    }

    /// Reads a format selection: `text` or `jsonl`, and nothing else.
    pub fn parse(name: &str) -> (format: Option<OutputFormat>)
        ensures
            format == Self::named(name@),
    {
        let given: String = name.to_owned();
        if given == "text".to_owned() {
            Some(OutputFormat::Text)
        } else if given == "jsonl".to_owned() {
            Some(OutputFormat::Jsonl)
        } else {
            None
        }
    }
}

/// The JSON line of a named mapping: the object, with the name added under
/// `ChannelName`, as compact JSON.
pub open spec fn jsonl_line(name: Seq<char>, object: Map<Seq<char>, Json>) -> Seq<char> {
    json_rendering(Json::Object(object.insert("ChannelName"@, Json::Text(name))))
}

/// Renders a named mapping as one JSON line. A value that is no object has
/// no such line.
pub fn jsonl_value(name: &str, mapping: serde_json::Value) -> (line: Option<String>)
    ensures
        match line {
            Some(text) => json_model(mapping) is Object && text@ == jsonl_line(
                name@,
                json_model(mapping)->Object_0,
            ),
            None => !(json_model(mapping) is Object),
        },
{
    if !json_is_object(&mapping) {
        return None;
    }
    let mut object = mapping;
    json_set(&mut object, "ChannelName", json_text(name.to_owned()));
    Some(json_to_string(&object))
}

/// The `key: value` lines of the first `n` entries, each ended by a newline.
pub open spec fn entry_lines(entries: Seq<(Seq<char>, Json)>, n: nat) -> Seq<char>
    decreases n,
{
    if n == 0 || n > entries.len() {
        Seq::empty()
    } else {
        entry_lines(entries, (n - 1) as nat) + entries[n - 1].0 + ": "@ + json_rendering(
            entries[n - 1].1,
        ) + "\n"@
    }
}

/// The bordered block of a named mapping: a rule, the name, a rule, one
/// `key: value` line per entry, and an empty line.
pub open spec fn text_block(name: Seq<char>, entries: Seq<(Seq<char>, Json)>) -> Seq<char> {
    "========================================================\n"@ + "Channel: "@ + name + "\n"@
        + "========================================================\n"@ + entry_lines(
        entries,
        entries.len(),
    ) + "\n"@
}

/// Renders a named mapping as a bordered block of `key: value` lines, one
/// for each entry of the object, in the order in which the object hands its
/// entries out. A value that is no object has no such block.
pub fn text_value(name: &str, mapping: &serde_json::Value) -> (block: Option<String>)
    ensures
        match block {
            Some(text) => json_model(*mapping) is Object && exists|entries: Seq<(Seq<char>, Json)>|
                #[trigger] lists(entries, json_model(*mapping)) && text@ == text_block(
                    name@,
                    entries,
                ),
            None => !(json_model(*mapping) is Object),
        },
{
    if !json_is_object(mapping) {
        return None;
    }
    let entries = json_entries(mapping);
    let ghost listing = entry_models(entries@);
    let mut text: String = "========================================================\n".to_owned();
    text.append("Channel: ");
    text.append(name);
    text.append("\n");
    text.append("========================================================\n");
    let ghost head = text@;
    let mut i: usize = 0;
    while i < entries.len()
        invariant
            i <= entries@.len(),
            listing == entry_models(entries@),
            text@ == head + entry_lines(listing, i as nat),
        decreases entries@.len() - i,
    {
        let entry = &entries[i];
        let rendered = json_to_string(&entry.1);
        text.append(entry.0.as_str());
        text.append(": ");
        text.append(rendered.as_str());
        text.append("\n");
        proof {
            assert(listing[i as int] == (entry.0@, json_model(entry.1)));
            assert(text@ =~= head + entry_lines(listing, (i + 1) as nat));
        }
        i += 1;
    }
    text.append("\n");
    assert(text@ =~= text_block(name@, listing));
    assert(lists(listing, json_model(*mapping)));
    Some(text)
}

} // verus!
