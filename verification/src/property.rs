use vstd::prelude::*;
use crate::errors::WinThingError;
use crate::json::{json_empty_object, json_model, json_set, Json};
use crate::variant::Variant;

verus! {

/// One line of a property table: the name under which a property is
/// reported and the numeric identifier by which it is queried.
#[derive(Debug, Clone, Copy)]
pub struct Property {
    pub name: &'static str,
    pub id: u32,
}

/// An ordered property table with the identifier that marks its end.
#[derive(Debug)]
pub struct PropertyTable {
    pub entries: Vec<Property>,
    pub terminator: u32,
}

/// No entry at a position up to and including `i` is the terminator.
pub open spec fn reached(entries: Seq<Property>, terminator: u32, i: int) -> bool {
    forall|k: int| 0 <= k <= i && k < entries.len() ==> (#[trigger] entries[k]).id != terminator
}

/// The JSON content of the `i`-th reply, where there is one, the read
/// succeeded and the value has a JSON form.
pub open spec fn readable(replies: Seq<Result<Variant, WinThingError>>, i: int) -> Option<Json> {
    if 0 <= i < replies.len() {
        match replies[i] {
            Ok(v) => match v.json() {
                Ok(j) => Some(j),
                Err(_) => None,
            },
            Err(_) => None,
        }
    } else {
        None
    }
}

/// The mapping gathered from the first `n` entries of a table, where
/// `replies[i]` answers the query for `entries[i]`: an entry contributes its
/// name and value if it stands before every terminator and its reply is
/// readable; a later entry of the same name replaces an earlier one.
pub open spec fn gathered(
    entries: Seq<Property>,
    terminator: u32,
    replies: Seq<Result<Variant, WinThingError>>,
    n: nat,
) -> Map<Seq<char>, Json>
    decreases n,
{
    if n == 0 {
        Map::empty()
    } else {
        let before = gathered(entries, terminator, replies, (n - 1) as nat);
        let i = n - 1;
        if i < entries.len() && reached(entries, terminator, i) && readable(replies, i).is_some() {
            before.insert(entries[i].name@, readable(replies, i).unwrap())
        } else {
            before
        }
    }
}

/// The whole mapping of a table.
pub open spec fn extracted(
    entries: Seq<Property>,
    terminator: u32,
    replies: Seq<Result<Variant, WinThingError>>,
) -> Map<Seq<char>, Json> {
    gathered(entries, terminator, replies, entries.len())
}

/// Once a terminator stands at `k`, nothing is gathered from `k` on.
pub proof fn lemma_terminator_stops(
    entries: Seq<Property>,
    terminator: u32,
    replies: Seq<Result<Variant, WinThingError>>,
    k: int,
    n: nat,
)
    requires
        0 <= k < entries.len(),
        entries[k].id == terminator,
        k <= n,
    ensures
        gathered(entries, terminator, replies, n) == gathered(entries, terminator, replies, k as nat),
    decreases n,
{
    if n > k {
        lemma_terminator_stops(entries, terminator, replies, k, (n - 1) as nat);
        assert(!reached(entries, terminator, n - 1));
    }
}

/// Two tables that agree on their first `n` entries, read with replies of
/// which the first `n` are readable alike, gather the same from those entries.
pub proof fn lemma_gathered_from_prefix(
    e1: Seq<Property>,
    e2: Seq<Property>,
    terminator: u32,
    r1: Seq<Result<Variant, WinThingError>>,
    r2: Seq<Result<Variant, WinThingError>>,
    n: nat,
)
    requires
        n <= e1.len(),
        n <= e2.len(),
        forall|i: int| 0 <= i < n ==> e1[i] == e2[i],
        forall|i: int| 0 <= i < n ==> readable(r1, i) == readable(r2, i),
    ensures
        gathered(e1, terminator, r1, n) == gathered(e2, terminator, r2, n),
    decreases n,
{
    if n > 0 {
        lemma_gathered_from_prefix(e1, e2, terminator, r1, r2, (n - 1) as nat);
        let i = n - 1;
        assert(e1[i] == e2[i]);
        assert(readable(r1, i) == readable(r2, i));
        assert(reached(e1, terminator, i) == reached(e2, terminator, i)) by {
            assert forall|k: int| 0 <= k <= i implies e1[k] == e2[k] by {}
        }
    }
}

/// Where no property can be read, the mapping is empty, whatever the table.
pub proof fn lemma_nothing_readable_gathers_nothing(
    entries: Seq<Property>,
    terminator: u32,
    replies: Seq<Result<Variant, WinThingError>>,
    n: nat,
)
    requires
        forall|i: int| readable(replies, i).is_none(),
    ensures
        gathered(entries, terminator, replies, n) == Map::<Seq<char>, Json>::empty(),
    decreases n,
{
    if n > 0 {
        lemma_nothing_readable_gathers_nothing(entries, terminator, replies, (n - 1) as nat);
        assert(readable(replies, n - 1).is_none());
    }
}

/// What stands behind a terminator never shows: two tables that agree up to
/// a terminator at `k`, read with replies that agree before `k`, give the same
/// mapping, whatever entries and replies follow.
pub proof fn lemma_after_terminator_ignored(
    e1: Seq<Property>,
    e2: Seq<Property>,
    terminator: u32,
    r1: Seq<Result<Variant, WinThingError>>,
    r2: Seq<Result<Variant, WinThingError>>,
    k: int,
)
    requires
        0 <= k < e1.len(),
        k < e2.len(),
        e1[k].id == terminator,
        e2[k].id == terminator,
        forall|i: int| 0 <= i < k ==> e1[i] == e2[i],
        forall|i: int| 0 <= i < k ==> readable(r1, i) == readable(r2, i),
    ensures
        extracted(e1, terminator, r1) == extracted(e2, terminator, r2),
{
    lemma_terminator_stops(e1, terminator, r1, k, e1.len());
    lemma_terminator_stops(e2, terminator, r2, k, e2.len());
    lemma_gathered_from_prefix(e1, e2, terminator, r1, r2, k as nat);
}

impl PropertyTable {
    /// The position at which querying stops: that of the first terminator,
    /// or the table's length.
    pub open spec fn is_stop(&self, stop: int) -> bool {
        &&& 0 <= stop <= self.entries@.len()
        &&& forall|k: int| 0 <= k < stop ==> (#[trigger] self.entries@[k]).id != self.terminator
        &&& stop < self.entries@.len() ==> self.entries@[stop].id == self.terminator
    }

    /// The identifiers to query, in order: those of the entries before the
    /// first terminator, and no other.
    pub fn query_ids(&self) -> (ids: Vec<u32>)
        ensures
            self.is_stop(ids@.len() as int),
            forall|i: int| 0 <= i < ids@.len() ==> ids@[i] == self.entries@[i].id,
    {
        let mut ids: Vec<u32> = Vec::new();
        let mut i: usize = 0;
        while i < self.entries.len()
            invariant
                i <= self.entries@.len(),
                ids@.len() == i,
                forall|k: int| 0 <= k < i ==> (#[trigger] self.entries@[k]).id != self.terminator,
                forall|k: int| 0 <= k < i ==> ids@[k] == self.entries@[k].id,
            decreases self.entries@.len() - i,
        {
            let id: u32 = self.entries[i].id;
            if id == self.terminator {
                return ids;
            }
            ids.push(id);
            i += 1;
        }
        ids
    }

    /// Builds the mapping of this table from the replies to its queries,
    /// `replies[i]` answering `query_ids()[i]`. A property whose reply is
    /// missing, failed or has no JSON form is left out; nothing else is.
    pub fn extract(&self, replies: &Vec<Result<Variant, WinThingError>>) -> (mapping:
        serde_json::Value)
        ensures
            json_model(mapping) == Json::Object(
                extracted(self.entries@, self.terminator, replies@),
            ),
    {
        let mut mapping = json_empty_object();
        let mut i: usize = 0;
        while i < self.entries.len()
            invariant
                i <= self.entries@.len(),
                forall|k: int| 0 <= k < i ==> (#[trigger] self.entries@[k]).id != self.terminator,
                json_model(mapping) == Json::Object(
                    gathered(self.entries@, self.terminator, replies@, i as nat),
                ),
            decreases self.entries@.len() - i,
        {
            let property: Property = self.entries[i];
            if property.id == self.terminator {
                proof {
                    lemma_terminator_stops(
                        self.entries@,
                        self.terminator,
                        replies@,
                        i as int,
                        self.entries@.len(),
                    );
                }
                return mapping;
            }
            assert(reached(self.entries@, self.terminator, i as int));
            if i < replies.len() {
                match &replies[i] {
                    Ok(variant) => match variant.get_json_value() {
                        Ok(value) => {
                            json_set(&mut mapping, property.name, value);
                        },
                        Err(_) => {},
                    },
                    Err(_) => {},
                }
            }
            i += 1;
        }
        mapping
    }
}

} // verus!
