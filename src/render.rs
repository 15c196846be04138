use vstd::prelude::*;
use vstd::multiset::Multiset;
use vstd::seq_lib::group_to_multiset_ensures;

verus! {

broadcast use group_to_multiset_ensures;

/// Which mesh a draw command uses.
#[derive(Clone, Copy, PartialEq, Eq, Structural, Debug)]
pub enum DrawType {
    Quad,
    Cube,
}

/// The texture bound for a draw command, by asset name.
#[derive(Clone, Copy, PartialEq, Eq, Debug)]
pub enum TexArg<'a> {
    Untextured,
    One(&'a str),
}

/// How a texture is sampled.
#[derive(Clone, Copy, PartialEq, Eq, Structural, Debug)]
pub enum FilterType {
    Nearest,
    Linear,
}

/// The curve that an animation follows.
#[derive(Clone, Copy, PartialEq, Eq, Structural, Debug)]
pub enum EaseType {
    Linear,
    Ease,
}

/// The commands of one frame, each with a depth key; they leave farthest
/// (largest key) first. Commands with equal keys leave in no set order.
pub struct DrawQueue<T> {
    entries: Vec<(i32, T)>,
}

impl<T> View for DrawQueue<T> {
    type V = Multiset<(i32, T)>;

    closed spec fn view(&self) -> Multiset<(i32, T)> {
        self.entries@.to_multiset()
    }
}

/// Keys never increase along `s`.
pub open spec fn non_increasing<T>(s: Seq<(i32, T)>) -> bool {
    forall|i: int, j: int| 0 <= i < j < s.len() ==> s[i].0 >= s[j].0
}

impl<T> DrawQueue<T> {
    pub fn new() -> (r: Self)
        ensures
            r@ == Multiset::<(i32, T)>::empty(),
    {
        let r = DrawQueue { entries: Vec::new() };
        assert(r.entries@.to_multiset() =~= Multiset::empty());
        r
    }

    pub fn len(&self) -> (r: usize)
        ensures
            r == self@.len(),
    {
        self.entries.len()
    }

    /// Adds `item` with depth key `key`.
    pub fn push(&mut self, key: i32, item: T)
        ensures
            final(self)@ == old(self)@.insert((key, item)),
    {
        self.entries.push((key, item));
    }

    /// Takes out a command with the largest key, or `None` when empty.
    pub fn pop(&mut self) -> (r: Option<(i32, T)>)
        ensures
            old(self)@.len() == 0 ==> r is None && final(self)@ == old(self)@,
            old(self)@.len() > 0 ==> (r matches Some(e) && old(self)@.contains(e) && final(self)@
                == old(self)@.remove(e) && forall|o: (i32, T)| #[trigger]
                old(self)@.contains(o) ==> o.0 <= e.0),
    {
        let n = self.entries.len();
        if n == 0 {
            return None;
        }
        let mut best: usize = 0;
        let mut i: usize = 1;
        while i < n
            invariant
                n == self.entries@.len(),
                1 <= i <= n,
                best < n,
                forall|k: int| 0 <= k < i ==> self.entries@[k].0 <= self.entries@[best as int].0,
            decreases n - i,
        {
            if self.entries[i].0 > self.entries[best].0 {
                best = i;
            }
            i += 1;
        }
        let ghost s = self.entries@;
        let e = self.entries.remove(best);
        assert(s.to_multiset().contains(e));
        assert forall|o: (i32, T)| #[trigger] s.to_multiset().contains(o) implies o.0 <= e.0 by {
            assert(s.contains(o));
            let k = choose|k: int| 0 <= k < s.len() && s[k] == o;
        }
        Some(e)
    }

    /// Empties the queue and returns its commands, farthest first.
    pub fn flush(&mut self) -> (r: Vec<(i32, T)>)
        ensures
            final(self)@.len() == 0,
            r@.to_multiset() == old(self)@,
            non_increasing(r@),
    {
        let mut r: Vec<(i32, T)> = Vec::new();
        loop
            invariant
                r@.to_multiset().add(self@) == old(self)@,
                non_increasing(r@),
                r@.len() > 0 ==> forall|o: (i32, T)| #[trigger]
                    self@.contains(o) ==> o.0 <= r@.last().0,
            decreases self@.len(),
        {
            let ghost before = self@;
            match self.pop() {
                Some(e) => {
                    let ghost rs = r@;
                    r.push(e);
                    assert(r@.to_multiset() == rs.to_multiset().insert(e));
                    assert(r@.to_multiset().add(self@) =~= rs.to_multiset().add(before));
                    assert forall|o: (i32, T)| #[trigger] self@.contains(o) implies o.0 <= e.0 by {
                        assert(before.contains(o));
                    }
                },
                None => {
                    assert(r@.to_multiset() =~= r@.to_multiset().add(self@));
                    return r;
                },
            }
        }
    }
}

} // verus!
