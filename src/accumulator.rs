//! The single pending, not yet newline-terminated, log fragment.
use vstd::prelude::*;

verus! {

/// Text received so far but not yet terminated by a newline.
///
/// At most one fragment is pending at a time: fragments from distinct
/// emitters that arrive without a newline in between are joined as if they
/// came from one source. Sharing between threads is left to the owner, who
/// wraps the value in a lock and performs each operation under it.
pub struct Accumulator {
    pending: Option<String>,
}

impl View for Accumulator {
    type V = Option<Seq<char>>;

    closed spec fn view(&self) -> Option<Seq<char>> {
        match self.pending {
            Some(s) => Some(s@),
            None => None,
        }
    }
}

/// The pending text, or the empty text where nothing is pending.
pub open spec fn pending_text(state: Option<Seq<char>>) -> Seq<char> {
    match state {
        Some(p) => p,
        None => Seq::empty(),
    }
}

/// The state after one fragment is appended: the fragment joined onto what was
/// pending, or the fragment alone where nothing was.
pub open spec fn appended(state: Option<Seq<char>>, fragment: Seq<char>) -> Option<Seq<char>> {
    match state {
        Some(p) => Some(p + fragment),
        None => Some(fragment),
    }
}

/// The state after each of `fragments` is appended, in order.
pub open spec fn appended_all(state: Option<Seq<char>>, fragments: Seq<Seq<char>>) -> Option<
    Seq<char>,
>
    decreases fragments.len(),
{
    if fragments.len() == 0 {
        state
    } else {
        appended(appended_all(state, fragments.drop_last()), fragments.last())
    }
}

impl Accumulator {
    /// An accumulator with nothing pending.
    pub fn new() -> (r: Accumulator)
        ensures
            r@ == None::<Seq<char>>,
    {
        Accumulator { pending: None }
    }

    /// A copy of the pending text, if any.
    pub fn pending(&self) -> (r: Option<String>)
        ensures
            r is Some <==> self@ is Some,
            r is Some ==> Some(r->0@) == self@,
    {
        match &self.pending {
            Some(p) => Some(p.clone()),
            None => None,
        }
    }

    /// Joins `fragment` onto the pending text (or makes it the pending text
    /// where nothing is pending) and leaves the result pending.
    pub fn append(&mut self, fragment: String)
        ensures
            final(self)@ == appended(old(self)@, fragment@),
    {
        let joined = match self.pending.take() {
            Some(p) => p.concat(fragment.as_str()),
            None => fragment,
        };
        self.pending = Some(joined);
    }

    /// Joins `fragment` onto the pending text (or takes it alone where nothing
    /// is pending), clears the pending text, and returns the joined text.
    pub fn extend_or_start(&mut self, fragment: String) -> (r: String)
        ensures
            r@ == pending_text(old(self)@) + fragment@,
            final(self)@ == None::<Seq<char>>,
    {
        match self.pending.take() {
            Some(p) => p.concat(fragment.as_str()),
            None => {
                assert(fragment@ == Seq::<char>::empty() + fragment@);
                fragment
            },
        }
    }
}

/// Appending fragments one by one leaves pending exactly what was pending
/// before, followed by the fragments joined in call order; something is
/// pending afterwards unless nothing was and no fragment came.
pub proof fn lemma_appends_concatenate(state: Option<Seq<char>>, fragments: Seq<Seq<char>>)
    ensures
        pending_text(appended_all(state, fragments)) == pending_text(state) + fragments.flatten(),
        appended_all(state, fragments) is Some <==> (state is Some || fragments.len() > 0),
    decreases fragments.len(),
{
    fragments.lemma_flatten_and_flatten_alt_are_equivalent();
    if fragments.len() == 0 {
        assert(pending_text(state) + fragments.flatten() =~= pending_text(state));
    } else {
        let init = fragments.drop_last();
        lemma_appends_concatenate(state, init);
        init.lemma_flatten_and_flatten_alt_are_equivalent();
        let before = appended_all(state, init);
        assert(pending_text(appended(before, fragments.last())) =~= pending_text(before)
            + fragments.last());
        assert(fragments.flatten_alt() == init.flatten_alt() + fragments.last());
        assert(pending_text(state) + init.flatten() + fragments.last() =~= pending_text(state)
            + (init.flatten() + fragments.last()));
    }
}

/// Starting from an empty accumulator, a non-empty run of appended fragments
/// leaves exactly their concatenation pending.
pub proof fn lemma_appends_from_empty(fragments: Seq<Seq<char>>)
    requires
        fragments.len() > 0,
    ensures
        appended_all(None, fragments) == Some(fragments.flatten()),
{
    lemma_appends_concatenate(None, fragments);
    assert(pending_text(None) + fragments.flatten() =~= fragments.flatten());
}

} // verus!
