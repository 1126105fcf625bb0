use vstd::prelude::*;

use crate::error::ChatError;

verus! {

/// A sequence with its final element removed; an empty sequence stays empty.
pub open spec fn without_last<A>(s: Seq<A>) -> Seq<A> {
    if s.len() == 0 {
        s
    } else {
        s.drop_last()
    }
}

/// What `History::last` yields for turn records `turns`:
/// nothing for no turns, the reply of the final turn-pair when it has one,
/// and an error when that pair is too short to hold a reply.
pub open spec fn last_reply(turns: Seq<Seq<Seq<char>>>) -> Result<Option<Seq<char>>, ()> {
    if turns.len() == 0 {
        Ok(None)
    } else if turns.last().len() < 2 {
        Err(())
    } else {
        Ok(Some(turns.last()[1]))
    }
}

/// The conversation so far, as two parallel lists of turn-pairs
/// (speaker input, response): one for the model and one for display.
#[derive(Debug)]
pub struct History {
    pub internal: Vec<Vec<String>>,
    pub visible: Vec<Vec<String>>,
}

/// A copy of one turn-pair.
fn copy_pair(pair: &Vec<String>) -> (r: Vec<String>)
    ensures
        r.deep_view() == pair.deep_view(),
{
    let mut r: Vec<String> = Vec::new();
    let mut i: usize = 0;
    while i < pair.len()
        invariant
            i <= pair.len(),
            r@.len() == i,
            forall|k: int| 0 <= k < i ==> #[trigger] r@[k]@ == pair@[k]@,
        decreases pair.len() - i,
    {
        r.push(pair[i].clone());
        i = i + 1;
    }
    assert(r.deep_view() =~= pair.deep_view());
    r
}

/// A copy of a list of turn-pairs.
fn copy_turns(turns: &Vec<Vec<String>>) -> (r: Vec<Vec<String>>)
    ensures
        r.deep_view() == turns.deep_view(),
{
    let mut r: Vec<Vec<String>> = Vec::new();
    let mut i: usize = 0;
    while i < turns.len()
        invariant
            i <= turns.len(),
            r@.len() == i,
            forall|k: int| 0 <= k < i ==> #[trigger] r@[k].deep_view() == turns@[k].deep_view(),
        decreases turns.len() - i,
    {
        r.push(copy_pair(&turns[i]));
        i = i + 1;
    }
    assert(r.deep_view() =~= turns.deep_view());
    r
}

impl History {
    /// The model-facing turn records as plain text.
    pub open spec fn internal_turns(&self) -> Seq<Seq<Seq<char>>> {
        self.internal.deep_view()
    }

    /// The display-facing turn records as plain text.
    pub open spec fn visible_turns(&self) -> Seq<Seq<Seq<char>>> {
        self.visible.deep_view()
    }

    /// An empty history, the start of a new conversation.
    pub fn default() -> (r: History)
        ensures
            r.internal_turns().len() == 0,
            r.visible_turns().len() == 0,
    {
        History { internal: Vec::new(), visible: Vec::new() }
    }

    /// A history holding the given turn records.
    pub fn new(internal: Vec<Vec<String>>, visible: Vec<Vec<String>>) -> (r: History)
        ensures
            r.internal == internal,
            r.visible == visible,
    {
        History { internal, visible }
    }

    /// A copy of this history.
    pub fn duplicate(&self) -> (r: History)
        ensures
            r.internal_turns() == self.internal_turns(),
            r.visible_turns() == self.visible_turns(),
    {
        History { internal: copy_turns(&self.internal), visible: copy_turns(&self.visible) }
    }

    /// Removes the most recent turn-pair from both lists, where there is one,
    /// and returns a copy of the history that remains.
    pub fn undo(&mut self) -> (r: History)
        ensures
            final(self).internal_turns() == without_last(old(self).internal_turns()),
            final(self).visible_turns() == without_last(old(self).visible_turns()),
            r.internal_turns() == final(self).internal_turns(),
            r.visible_turns() == final(self).visible_turns(),
    {
        self.internal.pop();
        self.visible.pop();
        assert(self.internal_turns() =~= without_last(old(self).internal_turns()));
        assert(self.visible_turns() =~= without_last(old(self).visible_turns()));
        self.duplicate()
    }

    /// The response of the most recent model-facing turn-pair, if there is one.
    pub fn last(self) -> (r: Result<Option<String>, ChatError>)
        ensures
            match last_reply(self.internal_turns()) {
                Ok(None) => r == Ok::<Option<String>, ChatError>(None),
                Ok(Some(reply)) => r matches Ok(Some(s)) && s@ == reply,
                Err(_) => r == Err::<Option<String>, ChatError>(ChatError::MalformedHistory),
            },
    {
        let mut internal = self.internal;
        match internal.pop() {
            None => Ok(None),
            Some(pair) => {
                if pair.len() < 2 {
                    Err(ChatError::MalformedHistory)
                } else {
                    Ok(Some(pair[1].clone()))
                }
            },
        }
    }
}

} // verus!
