//! Windows in which gestures trigger nothing.

use vstd::prelude::*;

verus! {

/// The titles of the windows in front of which no action is carried out.
#[derive(Debug)]
pub struct Blacklist {
    titles: Vec<String>,
}

impl View for Blacklist {
    type V = Seq<Seq<char>>;

    closed spec fn view(&self) -> Seq<Seq<char>> {
        Seq::new(self.titles@.len(), |i: int| self.titles@[i]@)
    }
}

/// Whether a foreground window with this title is blacklisted. The title
/// has to match an entry exactly. A window whose title could not be read,
/// `None`, is not blacklisted.
pub open spec fn blocked(blacklist: Seq<Seq<char>>, window_title: Option<Seq<char>>) -> bool {
    match window_title {
        Some(title) => blacklist.contains(title),
        None => false,
    }
}

/// The title that the default blacklist holds.
pub open spec fn default_title() -> Seq<char> {
    "PUBG\u{ff1a}\u{7edd}\u{5730}\u{6c42}\u{751f} "@
}

impl Blacklist {
    /// A blacklist without entries.
    pub fn new() -> (blacklist: Blacklist)
        ensures
            blacklist@ == Seq::<Seq<char>>::empty(),
    {
        let blacklist = Blacklist { titles: Vec::new() };
        assert(blacklist@ =~= Seq::<Seq<char>>::empty());
        blacklist
    }

    /// Adds `title` as the last entry.
    pub fn add(&mut self, title: &str)
        ensures
            final(self)@ == old(self)@.push(title@),
    {
        self.titles.push(title.to_owned());
        assert(self@ =~= old(self)@.push(title@));
    }

    /// The number of entries.
    pub fn len(&self) -> (count: usize)
        ensures
            count == self@.len(),
    {
        self.titles.len()
    }

    /// Whether `title` matches an entry exactly.
    pub fn contains(&self, title: &str) -> (found: bool)
        ensures
            found == self@.contains(title@),
    {
        let wanted: String = title.to_owned();
        let mut i: usize = 0;
        while i < self.titles.len()
            invariant
                i <= self.titles@.len(),
                wanted@ == title@,
                forall|j: int| 0 <= j < i ==> self@[j] != title@,
            decreases self.titles@.len() - i,
        {
            if self.titles[i] == wanted {
                assert(self@[i as int] == title@);
                return true;
            }
            i = i + 1;
        }
        false
    }
}

/// The default blacklist, with its one title.
pub fn default_blacklist() -> (blacklist: Blacklist)
    ensures
        blacklist@ == seq![default_title()],
{
    let mut blacklist = Blacklist::new();
    blacklist.add("PUBG\u{ff1a}\u{7edd}\u{5730}\u{6c42}\u{751f} ");
    assert(blacklist@ =~= seq![default_title()]);
    blacklist
}

/// Whether the foreground window is blacklisted, given its title, or `None`
/// where the title could not be read.
pub fn in_blacklist(blacklist: &Blacklist, window_title: Option<&str>) -> (found: bool)
    ensures
        found == blocked(
            blacklist@,
            match window_title {
                Some(title) => Some(title@),
                None => None,
            },
        ),
{
    match window_title {
        Some(title) => blacklist.contains(title),
        None => false,
    }
}

} // verus!
