//! An insertion-ordered set of tags, unique by name.
use super::tag::{is_tag_name, Tag};
use crate::text::str_eq;
use vstd::prelude::*;

verus! {

/// No name occurs twice.
pub open spec fn no_duplicate_names(s: Seq<Seq<char>>) -> bool {
    forall|i: int, j: int| 0 <= i < j < s.len() ==> s[i] != s[j]
}

/// Every name is one that `Tag::new` produces.
pub open spec fn all_tag_names(s: Seq<Seq<char>>) -> bool {
    forall|i: int| 0 <= i < s.len() ==> is_tag_name(#[trigger] s[i])
}

/// The names of `s` with later repeats dropped: the first occurrence wins and
/// the order of first occurrences is kept.
pub open spec fn dedup_first(s: Seq<Seq<char>>) -> Seq<Seq<char>>
    decreases s.len(),
{
    if s.len() == 0 {
        Seq::empty()
    } else {
        let p = dedup_first(s.drop_last());
        if p.contains(s.last()) {
            p
        } else {
            p.push(s.last())
        }
    }
}

/// `s` with every occurrence of `n` removed, order kept.
pub open spec fn without_name(s: Seq<Seq<char>>, n: Seq<char>) -> Seq<Seq<char>>
    decreases s.len(),
{
    if s.len() == 0 {
        Seq::empty()
    } else {
        let p = without_name(s.drop_last(), n);
        if s.last() == n {
            p
        } else {
            p.push(s.last())
        }
    }
}

/// The names of a sequence of tags.
pub open spec fn names_of(tags: Seq<Tag>) -> Seq<Seq<char>> {
    tags.map_values(|t: Tag| t@)
}

pub proof fn lemma_push_contains(q: Seq<Seq<char>>, e: Seq<char>)
    ensures
        forall|x: Seq<char>| q.push(e).contains(x) <==> (q.contains(x) || x == e),
{
    assert forall|x: Seq<char>| q.push(e).contains(x) <==> (q.contains(x) || x == e) by {
        if q.push(e).contains(x) {
            let k = choose|k: int| 0 <= k < q.len() + 1 && q.push(e)[k] == x;
            if k < q.len() {
                assert(q[k] == x);
            }
        }
        if q.contains(x) {
            let k = choose|k: int| 0 <= k < q.len() && q[k] == x;
            assert(q.push(e)[k] == x);
        }
        if x == e {
            assert(q.push(e)[q.len() as int] == e);
        }
    }
}

pub proof fn lemma_dedup_first(s: Seq<Seq<char>>)
    ensures
        no_duplicate_names(dedup_first(s)),
        forall|x: Seq<char>| dedup_first(s).contains(x) <==> s.contains(x),
        dedup_first(s).len() <= s.len(),
    decreases s.len(),
{
    if s.len() == 0 {
        assert forall|x: Seq<char>| !s.contains(x) by {}
    } else {
        let q = s.drop_last();
        lemma_dedup_first(q);
        let p = dedup_first(q);
        assert(s =~= q.push(s.last()));
        lemma_push_contains(q, s.last());
        lemma_push_contains(p, s.last());
        assert forall|x: Seq<char>| dedup_first(s).contains(x) <==> s.contains(x) by {
            assert(s.contains(x) == q.push(s.last()).contains(x));
            assert(p.contains(x) == q.contains(x));
            assert(p.push(s.last()).contains(x) == (p.contains(x) || x == s.last()));
            assert(q.push(s.last()).contains(x) == (q.contains(x) || x == s.last()));
        }
        if !p.contains(s.last()) {
            let r = p.push(s.last());
            assert forall|i: int, j: int| 0 <= i < j < r.len() implies r[i] != r[j] by {
                if j == r.len() - 1 {
                    assert(p[i] == r[i]);
                }
            }
        }
    }
}

/// Dropping repeats from a sequence without repeats changes nothing.
pub proof fn lemma_dedup_first_unique(s: Seq<Seq<char>>)
    requires
        no_duplicate_names(s),
    ensures
        dedup_first(s) == s,
    decreases s.len(),
{
    if s.len() > 0 {
        let q = s.drop_last();
        assert(no_duplicate_names(q));
        lemma_dedup_first_unique(q);
        lemma_dedup_first(q);
        if q.contains(s.last()) {
            let k = choose|k: int| 0 <= k < q.len() && q[k] == s.last();
            assert(s[k] == s[s.len() - 1]);
        }
        assert(q.push(s.last()) =~= s);
    }
}

/// Removing a name keeps everything else in order: the result is exactly the
/// subsequence of the names different from `n`.
pub proof fn lemma_without_name_keeps_order(s: Seq<Seq<char>>, n: Seq<char>)
    ensures
        without_name(s, n) == s.filter(|x: Seq<char>| x != n),
    decreases s.len(),
{
    reveal_with_fuel(Seq::filter, 1);
    if s.len() > 0 {
        lemma_without_name_keeps_order(s.drop_last(), n);
    }
}

/// Where `n` stands once, at index `i`, removing it leaves the names before
/// `i` followed by the names after it.
pub proof fn lemma_without_name_at(s: Seq<Seq<char>>, n: Seq<char>, i: int)
    requires
        0 <= i < s.len(),
        s[i] == n,
        forall|j: int| 0 <= j < s.len() && j != i ==> s[j] != n,
    ensures
        without_name(s, n) == s.subrange(0, i) + s.subrange(i + 1, s.len() as int),
    decreases s.len(),
{
    let q = s.drop_last();
    if i == s.len() - 1 {
        assert forall|x: Seq<char>| q.contains(x) implies x != n by {
            let k = choose|k: int| 0 <= k < q.len() && q[k] == x;
            assert(s[k] == x);
        }
        lemma_without_name(q, n);
        assert(s.subrange(0, i) =~= q);
        assert(s.subrange(i + 1, s.len() as int) =~= Seq::<Seq<char>>::empty());
        assert(s.subrange(0, i) + s.subrange(i + 1, s.len() as int) =~= q);
    } else {
        assert forall|j: int| 0 <= j < q.len() && j != i implies q[j] != n by {
            assert(q[j] == s[j]);
        }
        lemma_without_name_at(q, n, i);
        assert(s.last() == s[s.len() - 1]);
        assert((q.subrange(0, i) + q.subrange(i + 1, q.len() as int)).push(s.last()) =~= s.subrange(0, i)
            + s.subrange(i + 1, s.len() as int));
    }
}

pub proof fn lemma_without_name(s: Seq<Seq<char>>, n: Seq<char>)
    ensures
        forall|x: Seq<char>| without_name(s, n).contains(x) <==> (s.contains(x) && x != n),
        no_duplicate_names(s) ==> no_duplicate_names(without_name(s, n)),
        !s.contains(n) ==> without_name(s, n) == s,
        without_name(s, n).len() <= s.len(),
    decreases s.len(),
{
    if s.len() == 0 {
        assert forall|x: Seq<char>| !s.contains(x) by {}
    } else {
        let q = s.drop_last();
        lemma_without_name(q, n);
        let p = without_name(q, n);
        assert(s =~= q.push(s.last()));
        lemma_push_contains(q, s.last());
        lemma_push_contains(p, s.last());
        assert forall|x: Seq<char>| without_name(s, n).contains(x) <==> (s.contains(x) && x != n) by {
            assert(s.contains(x) == q.push(s.last()).contains(x));
            assert(p.contains(x) == (q.contains(x) && x != n));
            assert(p.push(s.last()).contains(x) == (p.contains(x) || x == s.last()));
            assert(q.push(s.last()).contains(x) == (q.contains(x) || x == s.last()));
        }
        if no_duplicate_names(s) {
            assert(no_duplicate_names(q));
            if q.contains(s.last()) {
                let k = choose|k: int| 0 <= k < q.len() && q[k] == s.last();
                assert(s[k] == s[s.len() - 1]);
            }
            if s.last() != n {
                let r = p.push(s.last());
                assert forall|i: int, j: int| 0 <= i < j < r.len() implies r[i] != r[j] by {
                    if j == r.len() - 1 {
                        assert(p[i] == r[i]);
                        assert(p.contains(p[i]));
                    }
                }
            }
        }
        if !s.contains(n) {
            assert(s[s.len() - 1] != n);
            assert forall|x: Seq<char>| q.contains(x) implies x != n by {
                let k = choose|k: int| 0 <= k < q.len() && q[k] == x;
                assert(s[k] == x);
            }
            assert(q.push(s.last()) =~= s);
        }
    }
}

#[derive(Debug, PartialEq, Eq)]
pub struct TagSet {
    tags: Vec<Tag>,
}

impl View for TagSet {
    type V = Seq<Seq<char>>;

    closed spec fn view(&self) -> Seq<Seq<char>> {
        names_of(self.tags@)
    }
}

impl Clone for TagSet {
    fn clone(&self) -> (r: Self)
        ensures
            r@ == self@,
    {
        proof {
            use_type_invariant(self);
        }
        TagSet { tags: clone_tags(&self.tags) }
    }
}

impl Default for TagSet {
    fn default() -> (r: Self)
        ensures
            r@ == Seq::<Seq<char>>::empty(),
    {
        TagSet::empty()
    }
}

fn clone_tags(tags: &Vec<Tag>) -> (r: Vec<Tag>)
    ensures
        names_of(r@) == names_of(tags@),
        forall|i: int| 0 <= i < r@.len() ==> is_tag_name(#[trigger] r@[i]@),
{
    let mut out: Vec<Tag> = Vec::new();
    let mut i: usize = 0;
    while i < tags.len()
        invariant
            i <= tags.len(),
            out@.len() == i,
            forall|k: int| 0 <= k < i ==> #[trigger] out@[k]@ == tags@[k]@,
            forall|k: int| 0 <= k < i ==> is_tag_name(#[trigger] out@[k]@),
        decreases tags.len() - i,
    {
        let t = tags[i].clone();
        proof {
            use_type_invariant(&t);
        }
        out.push(t);
        i = i + 1;
    }
    assert(names_of(out@) =~= names_of(tags@));
    out
}

impl TagSet {
    /// The names are unique and each is a normalized tag name.
    #[verifier::type_invariant]
    pub open spec fn inv(self) -> bool {
        no_duplicate_names(self@) && all_tag_names(self@)
    }

    pub fn empty() -> (r: TagSet)
        ensures
            r@ == Seq::<Seq<char>>::empty(),
    {
        let r = TagSet { tags: Vec::new() };
        assert(r@ =~= Seq::<Seq<char>>::empty());
        r
    }

    /// The tags in order, later tags whose name already occurred dropped.
    pub fn from_tags(tags: Vec<Tag>) -> (r: TagSet)
        ensures
            r@ == dedup_first(names_of(tags@)),
    {
        let ghost src = names_of(tags@);
        let mut out: Vec<Tag> = Vec::new();
        let mut i: usize = 0;
        while i < tags.len()
            invariant
                i <= tags.len(),
                src == names_of(tags@),
                names_of(out@) == dedup_first(src.subrange(0, i as int)),
                forall|k: int| 0 <= k < out@.len() ==> is_tag_name(#[trigger] out@[k]@),
            decreases tags.len() - i,
        {
            let t = tags[i].clone();
            proof {
                use_type_invariant(&t);
                assert(src.subrange(0, i + 1).drop_last() =~= src.subrange(0, i as int));
                assert(src.subrange(0, i + 1).last() == t@);
            }
            let mut seen = false;
            let mut j: usize = 0;
            while j < out.len()
                invariant
                    j <= out.len(),
                    seen == exists|k: int| 0 <= k < j && #[trigger] out@[k]@ == t@,
                decreases out.len() - j,
            {
                if out[j] == t {
                    seen = true;
                }
                j = j + 1;
            }
            proof {
                let p = names_of(out@);
                if seen {
                    let k = choose|k: int| 0 <= k < j && #[trigger] out@[k]@ == t@;
                    assert(p[k] == t@);
                } else {
                    assert forall|k: int| 0 <= k < p.len() implies p[k] != t@ by {
                        assert(out@[k]@ == p[k]);
                    }
                }
                assert(seen == p.contains(t@));
            }
            if !seen {
                let ghost before = out@;
                out.push(t);
                assert(names_of(out@) =~= names_of(before).push(t@));
            }
            i = i + 1;
        }
        proof {
            assert(src.subrange(0, tags.len() as int) =~= src);
            lemma_dedup_first(src);
        }
        TagSet { tags: out }
    }

    pub fn as_slice(&self) -> (r: &[Tag])
        ensures
            names_of(r@) == self@,
    {
        self.tags.as_slice()
    }

    pub fn len(&self) -> (r: usize)
        ensures
            r == self@.len(),
    {
        self.tags.len()
    }

    pub fn is_empty(&self) -> (r: bool)
        ensures
            r == (self@.len() == 0),
    {
        self.tags.len() == 0
    }

    /// Whether some tag has the name `name`.
    pub fn contains_name(&self, name: &str) -> (r: bool)
        ensures
            r == self@.contains(name@),
    {
        let mut j: usize = 0;
        while j < self.tags.len()
            invariant
                j <= self.tags.len(),
                forall|k: int| 0 <= k < j ==> #[trigger] self@[k] != name@,
            decreases self.tags.len() - j,
        {
            if str_eq(self.tags[j].name(), name) {
                assert(self@[j as int] == name@);
                return true;
            }
            assert(self@[j as int] == self.tags@[j as int]@);
            j = j + 1;
        }
        false
    }

    /// The set with `tag` appended; `tag` must be new to it.
    pub fn with_appended(&self, tag: Tag) -> (r: TagSet)
        requires
            !self@.contains(tag@),
        ensures
            r@ == self@.push(tag@),
    {
        proof {
            use_type_invariant(self);
            use_type_invariant(&tag);
        }
        let mut tags = clone_tags(&self.tags);
        let ghost before = tags@;
        tags.push(tag);
        assert(names_of(tags@) =~= names_of(before).push(tag@));
        let r = TagSet { tags };
        r
    }

    /// The set without the tag named `name` (unchanged when there is none).
    pub fn without(&self, name: &str) -> (r: TagSet)
        ensures
            r@ == without_name(self@, name@),
            forall|i: int|
                0 <= i < self@.len() && #[trigger] self@[i] == name@ ==> r@ == self@.subrange(0, i)
                    + self@.subrange(i + 1, self@.len() as int),
            !self@.contains(name@) ==> r@ == self@,
    {
        proof {
            use_type_invariant(self);
        }
        let mut out: Vec<Tag> = Vec::new();
        let mut i: usize = 0;
        while i < self.tags.len()
            invariant
                i <= self.tags.len(),
                names_of(out@) == without_name(self@.subrange(0, i as int), name@),
                forall|k: int| 0 <= k < out@.len() ==> is_tag_name(#[trigger] out@[k]@),
                all_tag_names(self@),
            decreases self.tags.len() - i,
        {
            let t = self.tags[i].clone();
            proof {
                use_type_invariant(&t);
                assert(self@.subrange(0, i + 1).drop_last() =~= self@.subrange(0, i as int));
                assert(self@.subrange(0, i + 1).last() == t@);
            }
            if !str_eq(t.name(), name) {
                let ghost before = out@;
                out.push(t);
                assert(names_of(out@) =~= names_of(before).push(t@));
            }
            i = i + 1;
        }
        proof {
            assert(self@.subrange(0, self.tags.len() as int) =~= self@);
            lemma_without_name(self@, name@);
            assert forall|i: int|
                0 <= i < self@.len() && #[trigger] self@[i] == name@ implies without_name(self@, name@)
                    == self@.subrange(0, i) + self@.subrange(i + 1, self@.len() as int) by {
                assert forall|j: int| 0 <= j < self@.len() && j != i implies self@[j] != name@ by {
                    if j < i {
                        assert(self@[j] != self@[i]);
                    } else {
                        assert(self@[i] != self@[j]);
                    }
                }
                lemma_without_name_at(self@, name@, i);
            }
        }
        TagSet { tags: out }
    }
}

} // verus!
