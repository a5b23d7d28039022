//! Paths inside a site, as sequences of component names.

use vstd::prelude::*;

verus! {

/// A path below some root: the names of its components, outermost first.
#[derive(Debug)]
pub struct SitePath {
    pub components: Vec<String>,
}

impl View for SitePath {
    type V = Seq<Seq<char>>;

    open spec fn view(&self) -> Seq<Seq<char>> {
        self.components@.map_values(|name: String| name@)
    }
}

/// The components of a path written out with `/` between them.
pub open spec fn joined(path: Seq<Seq<char>>) -> Seq<char>
    decreases path.len(),
{
    if path.len() == 0 {
        seq![]
    } else if path.len() == 1 {
        path[0]
    } else {
        joined(path.drop_last()) + seq!['/'] + path.last()
    }
}

impl SitePath {
    /// The empty path.
    pub fn new() -> (path: SitePath)
        ensures
            path@ == Seq::<Seq<char>>::empty(),
    {
        let path = SitePath { components: Vec::new() };
        assert(path@ =~= Seq::<Seq<char>>::empty());
        path
    }

    /// The number of components.
    pub fn len(&self) -> (n: usize)
        ensures
            n == self@.len(),
    {
        self.components.len()
    }

    /// The components from position `from` on, as a path of their own;
    /// the empty path if there are none.
    pub fn tail(&self, from: usize) -> (rest: SitePath)
        ensures
            rest@ == if from <= self@.len() {
                self@.skip(from as int)
            } else {
                Seq::<Seq<char>>::empty()
            },
    {
        let mut components: Vec<String> = Vec::new();
        let mut i: usize = from;
        while i < self.components.len()
            invariant
                from <= i,
                i <= self.components.len() || i == from,
                components@.len() == i - from,
                forall|k: int| 0 <= k < components@.len() ==> components@[k]@ == self@[from + k],
            decreases self.components.len() - i,
        {
            components.push(self.components[i].clone());
            i += 1;
        }
        let rest = SitePath { components };
        if from <= self.components.len() {
            assert(rest@ =~= self@.skip(from as int));
        } else {
            assert(rest@ =~= Seq::<Seq<char>>::empty());
        }
        rest
    }

    /// A copy of the path.
    pub fn duplicate(&self) -> (copy: SitePath)
        ensures
            copy@ == self@,
    {
        self.tail(0)
    }

    /// Whether `base` is this path or one of its ancestors.
    pub fn starts_with(&self, base: &SitePath) -> (under: bool)
        ensures
            under == base@.is_prefix_of(self@),
    {
        if base.components.len() > self.components.len() {
            return false;
        }
        let mut i: usize = 0;
        while i < base.components.len()
            invariant
                i <= base.components.len() <= self.components.len(),
                forall|k: int| 0 <= k < i ==> self@[k] == base@[k],
            decreases base.components.len() - i,
        {
            if self.components[i] != base.components[i] {
                assert(self@.subrange(0, base@.len() as int)[i as int] != base@[i as int]);
                return false;
            }
            i += 1;
        }
        assert(self@.subrange(0, base@.len() as int) =~= base@);
        true
    }

    /// This path followed by the components of `rest`.
    pub fn join(&self, rest: &SitePath) -> (whole: SitePath)
        ensures
            whole@ == self@ + rest@,
    {
        let mut whole = self.duplicate();
        let mut i: usize = 0;
        while i < rest.components.len()
            invariant
                i <= rest.components.len(),
                whole@ == self@ + rest@.take(i as int),
            decreases rest.components.len() - i,
        {
            let ghost before = whole@;
            whole.components.push(rest.components[i].clone());
            assert(whole@ =~= before.push(rest@[i as int]));
            assert(whole@ =~= self@ + rest@.take(i + 1));
            i += 1;
        }
        assert(rest@.take(rest@.len() as int) =~= rest@);
        whole
    }

    /// This path followed by one more component.
    pub fn child(&self, name: &str) -> (whole: SitePath)
        ensures
            whole@ == self@.push(name@),
    {
        let mut whole = self.duplicate();
        whole.components.push(name.to_owned());
        assert(whole@ =~= self@.push(name@));
        whole
    }

    /// The path without its last component, or `None` for the empty path.
    pub fn parent(&self) -> (up: Option<SitePath>)
        ensures
            match up {
                Some(dir) => self@.len() > 0 && dir@ == self@.drop_last(),
                None => self@.len() == 0,
            },
    {
        if self.components.len() == 0 {
            return None;
        }
        let mut dir = self.duplicate();
        dir.components.pop();
        assert(dir@ =~= self@.drop_last());
        Some(dir)
    }

    /// The last component, or `None` for the empty path.
    pub fn file_name(&self) -> (name: Option<&String>)
        ensures
            match name {
                Some(last) => self@.len() > 0 && last@ == self@.last(),
                None => self@.len() == 0,
            },
    {
        if self.components.len() == 0 {
            None
        } else {
            Some(&self.components[self.components.len() - 1])
        }
    }

    /// The path written out with `/` between its components.
    pub fn to_text(&self) -> (text: String)
        ensures
            text@ == joined(self@),
    {
        let mut text = String::new();
        let mut i: usize = 0;
        while i < self.components.len()
            invariant
                i <= self.components.len(),
                text@ == joined(self@.take(i as int)),
            decreases self.components.len() - i,
        {
            let ghost seen = self@.take(i + 1);
            assert(seen.drop_last() =~= self@.take(i as int));
            assert(seen.last() == self@[i as int]);
            if i > 0 {
                text.append("/");
                proof {
                    reveal_strlit("/");
                    assert("/"@ =~= seq!['/']);
                }
            }
            text.append(self.components[i].as_str());
            assert(text@ =~= joined(seen));
            i += 1;
        }
        assert(self@.take(self@.len() as int) =~= self@);
        text
    }
}

} // verus!
