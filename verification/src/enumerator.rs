use vstd::prelude::*;
use crate::errors::WinThingError;
use crate::handle::EvtHandle;
use crate::publisher::{PublisherMeta, PublisherMetaView};

verus! {

/// What one pull on the native cursor brought: the end of the sequence, a
/// failure of the cursor itself, or a publisher name together with the answer
/// of the native call that opened its metadata.
#[derive(Debug)]
pub enum Pulled {
    End,
    CursorError { code: u32 },
    Name { name: String, opened: Result<usize, u32> },
}

/// What the enumerator makes of one pull.
#[derive(Debug)]
pub enum Pull {
    /// The next item of the sequence.
    Yield(PublisherMeta),
    /// Nothing to hand out from this pull: pull again.
    Retry,
    /// The sequence is over.
    Finished,
}

/// An answer as contracts see it.
pub enum PullView {
    Yield(PublisherMetaView),
    Retry,
    Finished,
}

impl View for Pull {
    type V = PullView;

    open spec fn view(&self) -> PullView {
        match *self {
            Pull::Yield(meta) => PullView::Yield(meta@),
            Pull::Retry => PullView::Retry,
            Pull::Finished => PullView::Finished,
        }
    }
}

/// The record that a pull gives rise to: one for a name whose metadata opened.
pub open spec fn item_of(pulled: Pulled) -> Option<PublisherMetaView> {
    match pulled {
        Pulled::Name { name, opened } => match EvtHandle::opened(opened) {
            Ok(raw) => Some(PublisherMetaView { name: name@, token: Some(raw) }),
            Err(_) => None,
        },
        _ => None,
    }
}

/// The transition of an enumerator: whether it is finished afterwards, and
/// what it answers.
pub open spec fn advance(finished: bool, pulled: Pulled) -> (bool, PullView) {
    if finished || pulled is End {
        (true, PullView::Finished)
    } else {
        match item_of(pulled) {
            Some(item) => (false, PullView::Yield(item)),
            None => (false, PullView::Retry),
        }
    }
}

/// No end signal stands at a position up to and including `i`.
pub open spec fn live_at(pulls: Seq<Pulled>, i: int) -> bool {
    forall|k: int| 0 <= k <= i && k < pulls.len() ==> !(#[trigger] pulls[k] is End)
}

/// The items that a fresh enumerator hands out over the first `n` pulls, in
/// the order of the pulls.
pub open spec fn yielded(pulls: Seq<Pulled>, n: nat) -> Seq<PublisherMetaView>
    decreases n,
{
    if n == 0 {
        Seq::empty()
    } else {
        let before = yielded(pulls, (n - 1) as nat);
        let i = n - 1;
        if i < pulls.len() && live_at(pulls, i) && item_of(pulls[i]).is_some() {
            before.push(item_of(pulls[i]).unwrap())
        } else {
            before
        }
    }
}

/// The views of a list of records.
pub open spec fn views(items: Seq<PublisherMeta>) -> Seq<PublisherMetaView> {
    Seq::new(items.len(), |i: int| items[i]@)
}

/// A cursor over the publishers of a machine.
#[derive(Debug)]
pub struct PublisherEnumerator {
    session: Option<EvtHandle>,
    pub_enum_handle: EvtHandle,
    finished: bool,
}

impl PublisherEnumerator {
    /// Whether the end signal has been seen.
    pub closed spec fn finished(&self) -> bool {
        self.finished
    }

    /// The native identifier of the enumeration itself.
    pub closed spec fn token(&self) -> Option<usize> {
        self.pub_enum_handle.token()
    }

    /// The native identifier of the session, where there is one.
    pub closed spec fn session_token(&self) -> Option<usize> {
        match self.session {
            Some(s) => s.token(),
            None => None,
        }
    }

    /// Makes an enumerator from the answer of the native call that opened the
    /// enumeration, on the local machine where `session` is `None`.
    pub fn new(session: Option<EvtHandle>, opened: Result<usize, u32>) -> (out: Result<
        Self,
        WinThingError,
    >)
        ensures
            match out {
                Ok(e) => !e.finished() && e.token().is_some() && EvtHandle::opened(opened) == Ok::<
                    usize,
                    WinThingError,
                >(e.token().unwrap()) && e.session_token() == match session {
                    Some(s) => s.token(),
                    None => None,
                },
                Err(e) => EvtHandle::opened(opened) == Err::<usize, WinThingError>(e),
            },
    {
        match EvtHandle::open(opened) {
            Ok(handle) => Ok(Self { session, pub_enum_handle: handle, finished: false }),
            Err(e) => Err(e),
        }
    }

    /// Whether the end signal has been seen.
    pub fn is_finished(&self) -> (finished: bool)
        ensures
            finished == self.finished(),
    {
        self.finished
    }

    /// The native identifier to pull with.
    pub fn raw_handle(&self) -> (raw: Option<usize>)
        ensures
            raw == self.token(),
    {
        self.pub_enum_handle.raw()
    }

    /// Gives up the enumeration handle; the caller releases what is returned.
    /// A closed enumerator is finished.
    pub fn close(&mut self) -> (released: Option<usize>)
        ensures
            released == old(self).token(),
            final(self).token().is_none(),
            final(self).finished(),
            final(self).session_token() == old(self).session_token(),
    {
        self.finished = true;
        self.pub_enum_handle.close()
    }

    /// Takes one pull. A name whose metadata opened is handed out; a cursor
    /// failure and a name that could not be opened are passed over, and the
    /// caller pulls again; the end signal finishes the enumerator, and a
    /// finished enumerator answers every further pull with `Finished`.
    pub fn next(&mut self, pulled: &Pulled) -> (out: Pull)
        ensures
            final(self).finished() == advance(old(self).finished(), *pulled).0,
            out@ == advance(old(self).finished(), *pulled).1,
            final(self).token() == old(self).token(),
            final(self).session_token() == old(self).session_token(),
    {
        if self.finished {
            return Pull::Finished;
        }
        match pulled {
            Pulled::End => {
                self.finished = true;
                Pull::Finished
            },
            Pulled::CursorError { .. } => Pull::Retry,
            Pulled::Name { name, opened } => match PublisherMeta::new(name.clone(), *opened) {
                Ok(meta) => {
                    assert(meta@ == item_of(*pulled).unwrap());
                    Pull::Yield(meta)
                },
                Err(_) => Pull::Retry,
            },
        }
    }

    /// Runs the enumerator over a recorded run of pulls and gathers what it
    /// hands out, in order.
    pub fn collect(&mut self, pulls: &Vec<Pulled>) -> (items: Vec<PublisherMeta>)
        ensures
            old(self).finished() ==> items@.len() == 0 && final(self).finished(),
            !old(self).finished() ==> views(items@) == yielded(pulls@, pulls@.len()),
            !old(self).finished() ==> (final(self).finished() <==> !live_at(
                pulls@,
                pulls@.len() - 1,
            )),
            final(self).token() == old(self).token(),
            final(self).session_token() == old(self).session_token(),
    {
        let mut items: Vec<PublisherMeta> = Vec::new();
        let ghost started_finished = self.finished();
        let mut i: usize = 0;
        while i < pulls.len()
            invariant
                i <= pulls@.len(),
                self.token() == old(self).token(),
                self.session_token() == old(self).session_token(),
                started_finished == old(self).finished(),
                started_finished ==> items@.len() == 0 && self.finished(),
                !started_finished ==> views(items@) =~= yielded(pulls@, i as nat),
                !started_finished ==> (self.finished() <==> !live_at(pulls@, i - 1)),
            decreases pulls@.len() - i,
        {
            let ghost before = items@;
            let ghost was_finished = self.finished();
            match self.next(&pulls[i]) {
                Pull::Yield(meta) => {
                    items.push(meta);
                    proof {
                        if !started_finished {
                            assert(live_at(pulls@, i as int));
                            assert(views(items@) =~= views(before).push(meta@));
                        }
                    }
                },
                Pull::Retry => {
                    proof {
                        if !started_finished {
                            assert(live_at(pulls@, i as int));
                        }
                    }
                },
                Pull::Finished => {
                    proof {
                        if !started_finished {
                            if was_finished {
                                assert(!live_at(pulls@, i as int));
                            } else {
                                assert(pulls@[i as int] is End);
                                assert(!live_at(pulls@, i as int));
                            }
                        }
                    }
                },
            }
            i += 1;
        }
        items
    }
}

/// An enumerator never hands out more items than it was given pulls.
pub proof fn lemma_yields_at_most_pulls(pulls: Seq<Pulled>, n: nat)
    ensures
        yielded(pulls, n).len() <= n,
    decreases n,
{
    if n > 0 {
        lemma_yields_at_most_pulls(pulls, (n - 1) as nat);
    }
}

/// Once the end signal stands at `k`, nothing is handed out from `k` on,
/// whatever the cursor brings afterwards.
pub proof fn lemma_end_is_final(pulls: Seq<Pulled>, k: int, n: nat)
    requires
        0 <= k < pulls.len(),
        pulls[k] is End,
        k <= n,
    ensures
        yielded(pulls, n) == yielded(pulls, k as nat),
    decreases n,
{
    if n > k {
        lemma_end_is_final(pulls, k, (n - 1) as nat);
        assert(!live_at(pulls, n - 1));
    }
}

/// A finished enumerator stays finished and hands out nothing.
pub proof fn lemma_no_resurrection(pulled: Pulled)
    ensures
        advance(true, pulled) == (true, PullView::Finished),
{
}

/// Where every pull before the end brings a name whose metadata opens, each
/// is handed out, in the order of the pulls.
pub proof fn lemma_all_open_all_yielded(pulls: Seq<Pulled>, n: nat)
    requires
        n <= pulls.len(),
        forall|i: int| 0 <= i < n ==> item_of(#[trigger] pulls[i]).is_some(),
    ensures
        yielded(pulls, n) == Seq::new(n, |i: int| item_of(pulls[i]).unwrap()),
    decreases n,
{
    if n > 0 {
        lemma_all_open_all_yielded(pulls, (n - 1) as nat);
        let i = n - 1;
        assert(item_of(pulls[i]).is_some());
        assert(live_at(pulls, i)) by {
            assert forall|k: int| 0 <= k <= i implies !(#[trigger] pulls[k] is End) by {
                assert(item_of(pulls[k]).is_some());
            }
        }
        assert(yielded(pulls, n) =~= Seq::new(n, |i: int| item_of(pulls[i]).unwrap()));
    } else {
        assert(yielded(pulls, n) =~= Seq::new(n, |i: int| item_of(pulls[i]).unwrap()));
    }
}

/// The first `n` pulls hand out the same whether they are read from `a` or
/// from `b`, where the two agree on them.
pub proof fn lemma_yielded_from_prefix(a: Seq<Pulled>, b: Seq<Pulled>, n: nat)
    requires
        n <= a.len(),
        n <= b.len(),
        forall|i: int| 0 <= i < n ==> a[i] == b[i],
    ensures
        yielded(a, n) == yielded(b, n),
    decreases n,
{
    if n > 0 {
        lemma_yielded_from_prefix(a, b, (n - 1) as nat);
        let i = n - 1;
        assert(a[i] == b[i]);
        assert(live_at(a, i) == live_at(b, i)) by {
            assert forall|k: int| 0 <= k <= i implies a[k] == b[k] by {}
        }
    }
}

/// A pull that hands out nothing and is not the end (a cursor failure, or a
/// name whose metadata cannot be opened) leaves no trace: the run hands out
/// what it would without that pull, in the same order.
pub proof fn lemma_failed_pull_is_skipped(pulls: Seq<Pulled>, i: int, n: nat)
    requires
        0 <= i < pulls.len(),
        !(pulls[i] is End),
        item_of(pulls[i]).is_none(),
        i < n <= pulls.len(),
    ensures
        yielded(pulls, n) == yielded(pulls.remove(i), (n - 1) as nat),
    decreases n,
{
    let rest = pulls.remove(i);
    if n == i + 1 {
        lemma_yielded_from_prefix(pulls, rest, i as nat);
    } else {
        lemma_failed_pull_is_skipped(pulls, i, (n - 1) as nat);
        let j = n - 1;
        assert(rest[j - 1] == pulls[j]);
        assert(live_at(pulls, j) == live_at(rest, j - 1)) by {
            if live_at(pulls, j) {
                assert forall|k: int| 0 <= k <= j - 1 && k < rest.len() implies !(
                #[trigger] rest[k] is End) by {
                    if k < i {
                        assert(rest[k] == pulls[k]);
                    } else {
                        assert(rest[k] == pulls[k + 1]);
                    }
                }
            }
            if live_at(rest, j - 1) {
                assert forall|k: int| 0 <= k <= j && k < pulls.len() implies !(
                #[trigger] pulls[k] is End) by {
                    if k < i {
                        assert(pulls[k] == rest[k]);
                    } else if k > i {
                        assert(pulls[k] == rest[k - 1]);
                    }
                }
            }
        }
    }
}

} // verus!
