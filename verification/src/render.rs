use vstd::prelude::*;
use vstd::slice::slice_subrange;

verus! {

/// The system error code with which a native call says that the buffer it
/// was given is too small.
pub const ERROR_INSUFFICIENT_BUFFER: u32 = 122;

/// The text that a sequence of UTF-16 code units decodes to when every
/// unpaired surrogate is replaced by U+FFFD.
pub uninterp spec fn utf16_lossy(units: Seq<u16>) -> Seq<char>;

/// `String::from_utf16_lossy`: decodes UTF-16 and never fails; invalid data
/// becomes the replacement character. The result depends on the code units
/// alone and is named `utf16_lossy`.
#[verifier::external_body]
fn decode_utf16_lossy(units: &[u16]) -> (text: String)
    ensures
        text@ == utf16_lossy(units@),
{
    String::from_utf16_lossy(units)
}

/// What one native render call answered.
#[derive(Debug)]
pub enum NativeReply {
    /// The call failed with `code` and reported that `required` units are needed.
    Failed { code: u32, required: u32 },
    /// The call succeeded: it filled `buffer` and reported `used` units.
    Filled { buffer: Vec<u16>, used: u32 },
}

/// Where a buffer negotiation stands.
#[derive(Debug, Clone, Copy, PartialEq, Eq, Structural)]
pub enum RenderState {
    /// The sizing call, with an empty buffer, is under way.
    Probing,
    /// The second call, with a buffer of `capacity` units, is under way.
    Retrying { capacity: u32 },
    /// Nothing more will be asked of the native side.
    Finished,
}

/// What the caller does next.
#[derive(Debug)]
pub enum RenderAction {
    /// Call the native render operation with a zeroed buffer of `capacity` units.
    Call { capacity: u32 },
    /// The negotiation is over, with the rendered text or without one.
    Done { text: Option<String> },
}

/// An action as contracts see it.
pub enum RenderActionView {
    Call { capacity: u32 },
    Done { text: Option<Seq<char>> },
}

impl View for RenderAction {
    type V = RenderActionView;

    open spec fn view(&self) -> RenderActionView {
        match *self {
            RenderAction::Call { capacity } => RenderActionView::Call { capacity },
            RenderAction::Done { text: Some(t) } => RenderActionView::Done { text: Some(t@) },
            RenderAction::Done { text: None } => RenderActionView::Done { text: None },
        }
    }
}

/// `i` is the position of the first null code unit among the first `limit`
/// units of `buffer`.
pub open spec fn is_first_null(buffer: Seq<u16>, limit: int, i: int) -> bool {
    &&& 0 <= i < limit
    &&& i < buffer.len()
    &&& buffer[i] == 0
    &&& forall|j: int| 0 <= j < i ==> buffer[j] != 0
}

/// One of the first `limit` units of `buffer` is null.
pub open spec fn has_null(buffer: Seq<u16>, limit: int) -> bool {
    exists|i: int| 0 <= i < limit && i < buffer.len() && buffer[i] == 0
}

/// How many leading units of a filled buffer are text: up to the first null
/// unit before the reported length, else the reported length without its
/// trailing terminator. `None` where the reported length is zero or points
/// past the buffer.
pub open spec fn text_end(buffer: Seq<u16>, used: int) -> Option<int> {
    if has_null(buffer, used) {
        Some(choose|i: int| is_first_null(buffer, used, i))
    } else if 1 <= used <= buffer.len() + 1 {
        Some(used - 1)
    } else {
        None
    }
}

/// The text of a filled buffer.
pub open spec fn buffer_text(buffer: Seq<u16>, used: int) -> Option<Seq<char>> {
    match text_end(buffer, used) {
        Some(end) => Some(utf16_lossy(buffer.subrange(0, end))),
        None => None,
    }
}

/// The transition of the negotiation: the next state and the next action.
pub open spec fn step(state: RenderState, reply: NativeReply) -> (RenderState, RenderActionView) {
    match (state, reply) {
        (RenderState::Probing, NativeReply::Failed { code, required }) => {
            if code == ERROR_INSUFFICIENT_BUFFER {
                (
                    RenderState::Retrying { capacity: required },
                    RenderActionView::Call { capacity: required },
                )
            } else {
                (RenderState::Finished, RenderActionView::Done { text: None })
            }
        },
        (RenderState::Retrying { .. }, NativeReply::Filled { buffer, used }) => (
            RenderState::Finished,
            RenderActionView::Done { text: buffer_text(buffer@, used as int) },
        ),
        _ => (RenderState::Finished, RenderActionView::Done { text: None }),
    }
}

/// Finds the first null unit among the first `limit` units.
fn find_null(buffer: &Vec<u16>, limit: usize) -> (found: Option<usize>)
    requires
        limit <= buffer.len(),
    ensures
        match found {
            Some(i) => is_first_null(buffer@, limit as int, i as int),
            None => !has_null(buffer@, limit as int),
        },
{
    let mut i: usize = 0;
    while i < limit
        invariant
            i <= limit <= buffer.len(),
            forall|j: int| 0 <= j < i ==> buffer@[j] != 0,
        decreases limit - i,
    {
        if buffer[i] == 0 {
            return Some(i);
        }
        i += 1;
    }
    None
}

/// Cuts a filled buffer down to its text and decodes it.
pub fn trim_and_decode(buffer: &Vec<u16>, used: u32) -> (text: Option<String>)
    ensures
        match text {
            Some(t) => buffer_text(buffer@, used as int) == Some(t@),
            None => buffer_text(buffer@, used as int).is_none(),
        },
{
    let limit: usize = if (used as usize) < buffer.len() {
        used as usize
    } else {
        buffer.len()
    };
    let end: usize = match find_null(buffer, limit) {
        Some(i) => {
            assert(has_null(buffer@, used as int));
            let ghost chosen = choose|k: int| is_first_null(buffer@, used as int, k);
            assert(is_first_null(buffer@, used as int, i as int));
            assert(chosen == i);
            i
        },
        None => {
            assert(!has_null(buffer@, used as int));
            if used >= 1 && (used as usize) - 1 <= buffer.len() {
                (used as usize) - 1
            } else {
                return None;
            }
        },
    };
    Some(decode_utf16_lossy(slice_subrange(buffer.as_slice(), 0, end)))
}

/// Starts a negotiation. The caller's first native call is the sizing call,
/// with no buffer at all.
pub fn begin_render() -> (out: (RenderState, RenderAction))
    ensures
        out.0 == RenderState::Probing,
        out.1@ == (RenderActionView::Call { capacity: 0 }),
{
    (RenderState::Probing, RenderAction::Call { capacity: 0 })
}

/// Advances a negotiation by the answer to the call that was under way.
///
/// The sizing call is expected to fail for want of room; only then is a second
/// call asked for, with exactly the reported capacity. Whatever the second call
/// answers ends the negotiation: with the decoded text where it succeeded and
/// its reported length fits the buffer, without a text otherwise.
pub fn evt_render(state: RenderState, reply: NativeReply) -> (out: (RenderState, RenderAction))
    ensures
        out.0 == step(state, reply).0,
        out.1@ == step(state, reply).1,
{
    match state {
        RenderState::Probing => match reply {
            NativeReply::Failed { code, required } => {
                if code == ERROR_INSUFFICIENT_BUFFER {
                    (
                        RenderState::Retrying { capacity: required },
                        RenderAction::Call { capacity: required },
                    )
                } else {
                    (RenderState::Finished, RenderAction::Done { text: None })
                }
            },
            NativeReply::Filled { .. } => (RenderState::Finished, RenderAction::Done { text: None }),
        },
        RenderState::Retrying { .. } => match reply {
            NativeReply::Filled { buffer, used } => {
                let text = trim_and_decode(&buffer, used);
                (RenderState::Finished, RenderAction::Done { text })
            },
            NativeReply::Failed { .. } => (RenderState::Finished, RenderAction::Done { text: None }),
        },
        RenderState::Finished => (RenderState::Finished, RenderAction::Done { text: None }),
    }
}

/// The number of native calls that a negotiation in `state` still asks for
/// while it is fed `replies`, one reply per call.
pub open spec fn calls_asked(state: RenderState, replies: Seq<NativeReply>) -> nat
    decreases replies.len(),
{
    if replies.len() == 0 || state == RenderState::Finished {
        0
    } else {
        let (next, action) = step(state, replies[0]);
        let asked: nat = if action is Call { 1 } else { 0 };
        asked + calls_asked(next, replies.drop_first())
    }
}

/// A finished negotiation stays finished and asks for nothing.
pub proof fn lemma_finished_is_final(reply: NativeReply)
    ensures
        step(RenderState::Finished, reply) == (
            RenderState::Finished,
            RenderActionView::Done { text: None },
        ),
{
}

/// Whatever the native side answers, and however long it goes on answering,
/// a negotiation makes the sizing call and at most one more: the native
/// operation is never called a third time for one record.
pub proof fn lemma_at_most_one_retry(replies: Seq<NativeReply>)
    ensures
        1 + calls_asked(RenderState::Probing, replies) <= 2,
{
    if replies.len() > 0 {
        let (s1, _a1) = step(RenderState::Probing, replies[0]);
        let rest = replies.drop_first();
        if rest.len() > 0 && s1 != RenderState::Finished {
            let (s2, a2) = step(s1, rest[0]);
            assert(s2 == RenderState::Finished);
            assert(!(a2 is Call));
            assert(calls_asked(s2, rest.drop_first()) == 0);
            assert(calls_asked(s1, rest) == 0);
        } else {
            assert(calls_asked(s1, rest) == 0);
        }
    }
}

/// A record whose sizing call reports `size` units for want of room, and whose
/// second call fills the buffer consistently, is rendered after exactly one
/// retry, made with a buffer of exactly `size` units.
pub proof fn lemma_sized_record_renders(size: u32, buffer: Vec<u16>, used: u32)
    requires
        text_end(buffer@, used as int).is_some(),
    ensures
        step(
            RenderState::Probing,
            NativeReply::Failed { code: ERROR_INSUFFICIENT_BUFFER, required: size },
        ) == (RenderState::Retrying { capacity: size }, RenderActionView::Call { capacity: size }),
        step(RenderState::Retrying { capacity: size }, NativeReply::Filled { buffer, used }) == (
            RenderState::Finished,
            RenderActionView::Done {
                text: Some(
                    utf16_lossy(buffer@.subrange(0, text_end(buffer@, used as int).unwrap())),
                ),
            },
        ),
{
}

} // verus!
