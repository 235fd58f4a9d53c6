//! The bounded memory of one conversation: a window over its most recent
//! entries.

use std::collections::VecDeque;
use vstd::prelude::*;
use vstd::string::*;

verus! {

/// The `n` newest entries of `entries`, oldest first; all of them where
/// there are no more than `n`.
pub open spec fn newest(entries: Seq<Seq<char>>, n: nat) -> Seq<Seq<char>> {
    if entries.len() <= n {
        entries
    } else {
        entries.subrange(entries.len() - n, entries.len() as int)
    }
}

/// The entries joined into one text, in order, with a line feed between
/// neighbours.
pub open spec fn joined(entries: Seq<Seq<char>>) -> Seq<char>
    decreases entries.len(),
{
    if entries.len() == 0 {
        Seq::empty()
    } else if entries.len() == 1 {
        entries[0]
    } else {
        joined(entries.drop_last()) + seq!['\n'] + entries.last()
    }
}

/// What a window of `capacity` entries holds once `entry` was added to one
/// that held `entries`.
pub open spec fn pushed(entries: Seq<Seq<char>>, capacity: nat, entry: Seq<char>) -> Seq<
    Seq<char>,
> {
    newest(entries.push(entry), capacity)
}

/// What a window of `capacity` entries holds once the entries of `appends`
/// were added, in order, to an empty one.
pub open spec fn after_appends(capacity: nat, appends: Seq<Seq<char>>) -> Seq<Seq<char>>
    decreases appends.len(),
{
    if appends.len() == 0 {
        Seq::empty()
    } else {
        pushed(after_appends(capacity, appends.drop_last()), capacity, appends.last())
    }
}

/// Keeping the newest `n` entries at every step leaves the same entries as
/// keeping the newest `n` once at the end.
pub proof fn lemma_newest_of_push(entries: Seq<Seq<char>>, n: nat, entry: Seq<char>)
    ensures
        pushed(newest(entries, n), n, entry) == newest(entries.push(entry), n),
{
    assert(pushed(newest(entries, n), n, entry) =~= newest(entries.push(entry), n));
}

/// The window never outgrows its capacity, and after any run of additions it
/// holds exactly the newest of them, as many as fit, in the order in which
/// they were added; its text is theirs.
pub proof fn lemma_window_holds_newest(capacity: nat, appends: Seq<Seq<char>>)
    ensures
        after_appends(capacity, appends).len() <= capacity,
        after_appends(capacity, appends).len() == if appends.len() <= capacity {
            appends.len()
        } else {
            capacity
        },
        after_appends(capacity, appends) == newest(appends, capacity),
        joined(after_appends(capacity, appends)) == joined(newest(appends, capacity)),
    decreases appends.len(),
{
    if appends.len() > 0 {
        let earlier = appends.drop_last();
        lemma_window_holds_newest(capacity, earlier);
        lemma_newest_of_push(earlier, capacity, appends.last());
        assert(earlier.push(appends.last()) =~= appends);
    }
}

/// A window of at most `capacity` messages.  A message added to a full
/// window pushes the oldest one out.
#[derive(Debug)]
pub struct SlidingWindow {
    window: VecDeque<String>,
    capacity: usize,
}

impl View for SlidingWindow {
    type V = Seq<Seq<char>>;

    /// The messages held, oldest first.
    closed spec fn view(&self) -> Seq<Seq<char>> {
        self.window@.map_values(|s: String| s@)
    }
}

impl SlidingWindow {
    #[verifier::type_invariant]
    spec fn bounded(&self) -> bool {
        self.window@.len() <= self.capacity
    }

    /// The most messages the window holds at once.
    pub closed spec fn spec_capacity(&self) -> nat {
        self.capacity as nat
    }

    /// An empty window for up to `capacity` messages.  No room is set aside
    /// ahead of use, so any capacity can be asked for.
    pub fn new(capacity: usize) -> (window: Self)
        ensures
            window@ == Seq::<Seq<char>>::empty(),
            window.spec_capacity() == capacity,
    {
        Self { window: VecDeque::new(), capacity }
    }

    /// The most messages the window holds at once.
    pub fn capacity(&self) -> (capacity: usize)
        ensures
            capacity == self.spec_capacity(),
    {
        self.capacity
    }

    /// How many messages the window holds now.
    pub fn len(&self) -> (len: usize)
        ensures
            len == self@.len(),
            len <= self.spec_capacity(),
    {
        proof {
            use_type_invariant(self);
        }
        self.window.len()
    }

    /// Whether the window holds no message.
    pub fn is_empty(&self) -> (empty: bool)
        ensures
            empty == (self@.len() == 0),
    {
        self.window.len() == 0
    }

    /// Adds `message` as the newest entry.  A full window first lets go of
    /// its oldest entry; a window of capacity zero keeps nothing.
    pub fn add(&mut self, message: String)
        ensures
            final(self)@ == pushed(old(self)@, old(self).spec_capacity(), message@),
            final(self).spec_capacity() == old(self).spec_capacity(),
            final(self)@.len() <= final(self).spec_capacity(),
    {
        proof {
            use_type_invariant(&*self);
        }
        if self.capacity == 0 {
            return ;
        }
        let mut window = VecDeque::new();
        std::mem::swap(&mut window, &mut self.window);
        let ghost before = window@;
        if window.len() == self.capacity {
            window.pop_front();
        }
        window.push_back(message);
        assert(window@.map_values(|s: String| s@) =~= newest(
            before.map_values(|s: String| s@).push(message@),
            self.capacity as nat,
        ));
        self.window = window;
    }

    /// The window's contents as one text: the messages in order, one per
    /// line.
    pub fn to_string(&self) -> (text: String)
        ensures
            text@ == joined(self@),
    {
        let mut text = String::new();
        let n = self.window.len();
        let mut i: usize = 0;
        while i < n
            invariant
                i <= n,
                n == self.window@.len(),
                text@ == joined(self@.take(i as int)),
            decreases n - i,
        {
            proof {
                reveal_strlit("\n");
                assert(self@.take(i + 1).drop_last() =~= self@.take(i as int));
            }
            if i > 0 {
                text.append("\n");
            }
            text.append(self.window[i].as_str());
            i += 1;
        }
        assert(self@.take(n as int) =~= self@);
        text
    }
}

impl Clone for SlidingWindow {
    /// A window of the same capacity that holds the same messages.
    fn clone(&self) -> (copy: Self)
        ensures
            copy@ == self@,
            copy.spec_capacity() == self.spec_capacity(),
    {
        proof {
            use_type_invariant(self);
        }
        let mut window: VecDeque<String> = VecDeque::new();
        let n = self.window.len();
        let mut i: usize = 0;
        while i < n
            invariant
                i <= n,
                n == self.window@.len(),
                window@.len() == i,
                forall|k: int| 0 <= k < i ==> window@[k]@ == self.window@[k]@,
            decreases n - i,
        {
            window.push_back(self.window[i].clone());
            i += 1;
        }
        assert(window@.map_values(|s: String| s@) =~= self@);
        Self { window, capacity: self.capacity }
    }
}

} // verus!
