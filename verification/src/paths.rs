//! A directory path as the sequence of its components below the root.

use vstd::prelude::*;
use vstd::string::StrSliceExecFns;
use vstd::string::StringExecFns;

verus! {

/// The views of a sequence of strings, component by component.
pub open spec fn views_of(v: Seq<String>) -> Seq<Seq<char>> {
    Seq::new(v.len(), |i: int| v[i]@)
}

/// The textual form of a component path: every component is preceded by one
/// separator, so the empty path (the root) displays as the empty string.
pub open spec fn display_of(p: Seq<Seq<char>>) -> Seq<char>
    decreases p.len(),
{
    if p.len() == 0 {
        Seq::empty()
    } else {
        display_of(p.drop_last()) + seq!['/'] + p.last()
    }
}

/// A directory path, held as the sequence of its components below the
/// filesystem root. The library works on paths in this form; turning it into
/// or out of the platform's native path type is the caller's conversion.
pub struct DirPath {
    components: Vec<String>,
}

impl View for DirPath {
    type V = Seq<Seq<char>>;

    closed spec fn view(&self) -> Seq<Seq<char>> {
        views_of(self.components@)
    }
}

impl DirPath {
    /// A path from its components, root first.
    pub fn from_components(components: Vec<String>) -> (r: DirPath)
        ensures
            r@ == views_of(components@),
    {
        DirPath { components }
    }

    /// How many components lie between this directory and the root.
    pub fn depth(&self) -> (n: usize)
        ensures
            n as nat == self@.len(),
    {
        self.components.len()
    }

    /// The components, root first.
    pub fn components(&self) -> (r: &Vec<String>)
        ensures
            views_of(r@) == self@,
    {
        &self.components
    }

    /// The path that keeps the first `keep` components of this one and then
    /// descends into `child`: the ancestor `self@.len() - keep` levels up,
    /// seen from its `child` entry.
    pub fn prefix_child(&self, keep: usize, child: &str) -> (r: DirPath)
        requires
            keep as nat <= self@.len(),
        ensures
            r@ == self@.take(keep as int).push(child@),
    {
        let mut components: Vec<String> = Vec::new();
        let mut i: usize = 0;
        while i < keep
            invariant
                i <= keep,
                keep as nat <= self.components@.len(),
                components@.len() == i as nat,
                forall|j: int| 0 <= j < i ==> components@[j]@ == self@[j],
            decreases keep - i,
        {
            components.push(self.components[i].clone());
            i = i + 1;
        }
        components.push(String::from_str(child));
        let r = DirPath { components };
        proof {
            assert(r@ =~= self@.take(keep as int).push(child@));
        }
        r
    }

    /// The textual form of the path, one `/` before each component.
    pub fn display_string(&self) -> (r: String)
        ensures
            r@ == display_of(self@),
    {
        let mut r = String::new();
        let mut i: usize = 0;
        proof {
            assert(self@.take(0) =~= Seq::<Seq<char>>::empty());
        }
        while i < self.components.len()
            invariant
                i <= self.components@.len(),
                r@ == display_of(self@.take(i as int)),
            decreases self.components@.len() - i,
        {
            proof {
                reveal_strlit("/");
                assert("/"@ =~= seq!['/']);
                assert(self@.take(i + 1).drop_last() =~= self@.take(i as int));
                assert(self@.take(i + 1).last() == self@[i as int]);
            }
            r.append("/");
            r.append(self.components[i].as_str());
            i = i + 1;
        }
        proof {
            assert(self@.take(self.components@.len() as int) =~= self@);
        }
        r
    }
}

} // verus!
