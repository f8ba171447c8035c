//! Absolute filesystem paths, held as their components from the root.

use vstd::prelude::*;

verus! {

/// An absolute filesystem path. The root is the empty component list;
/// every other path is the list of names walked from the root. A path's
/// parent drops the last component, so the root is the only path without
/// a parent.
pub struct DirPath {
    pub components: Vec<String>,
}

impl View for DirPath {
    type V = Seq<Seq<char>>;

    open spec fn view(&self) -> Seq<Seq<char>> {
        self.components@.map_values(|c: String| c@)
    }
}

/// Copies the first `upto` components of `v`.
fn clone_components(v: &Vec<String>, upto: usize) -> (r: Vec<String>)
    requires
        upto <= v.len(),
    ensures
        r@ == v@.subrange(0, upto as int),
{
    let mut r: Vec<String> = Vec::new();
    let mut i: usize = 0;
    while i < upto
        invariant
            i <= upto,
            upto <= v.len(),
            r@ == v@.subrange(0, i as int),
        decreases upto - i,
    {
        r.push(v[i].clone());
        proof {
            assert(r@ =~= v@.subrange(0, i + 1));
        }
        i = i + 1;
    }
    r
}

impl DirPath {
    /// The filesystem root.
    pub fn root() -> (p: DirPath)
        ensures
            p@ == Seq::<Seq<char>>::empty(),
    {
        let p = DirPath { components: Vec::new() };
        proof {
            assert(p@ =~= Seq::<Seq<char>>::empty());
        }
        p
    }

    pub fn is_root(&self) -> (r: bool)
        ensures
            r == (self@.len() == 0),
    {
        self.components.len() == 0
    }

    /// The parent directory: the path with its last component dropped,
    /// or `None` for the root, whose parent would be itself.
    pub fn parent(&self) -> (r: Option<DirPath>)
        ensures
            self@.len() == 0 ==> r is None,
            self@.len() > 0 ==> (r matches Some(p) && p@ == self@.drop_last()),
    {
        if self.components.len() == 0 {
            None
        } else {
            let comps = clone_components(&self.components, self.components.len() - 1);
            let p = DirPath { components: comps };
            proof {
                assert(p@ =~= self@.drop_last());
            }
            Some(p)
        }
    }

    /// The path of the entry called `name` inside this directory.
    pub fn child(&self, name: &String) -> (r: DirPath)
        ensures
            r@ == self@.push(name@),
    {
        let mut comps = clone_components(&self.components, self.components.len());
        comps.push(name.clone());
        let r = DirPath { components: comps };
        proof {
            assert(r@ =~= self@.push(name@));
        }
        r
    }

    /// A copy of this path.
    pub fn duplicate(&self) -> (r: DirPath)
        ensures
            r@ == self@,
    {
        let comps = clone_components(&self.components, self.components.len());
        let r = DirPath { components: comps };
        proof {
            assert(r@ =~= self@);
        }
        r
    }
}

} // verus!
