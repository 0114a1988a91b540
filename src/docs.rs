//! Outline of an API as nested headings.
use vstd::prelude::*;
use vstd::string::StringExecFns;

verus! {

/// A node of an API outline: a path segment and the segments found below it.
#[derive(Debug)]
pub struct ApiStructure {
    /// The segment.
    pub name: String,
    /// The nodes below it, in the order they were found.
    pub children: Vec<ApiStructure>,
}

/// `n` asterisks.
pub open spec fn stars(n: nat) -> Seq<char> {
    Seq::new(n, |_i: int| '*')
}

/// One heading line: the level as asterisks, a space, the name and a newline.
pub open spec fn heading(level: nat, name: Seq<char>) -> Seq<char> {
    stars(level) + seq![' '] + name + seq!['\n']
}

/// The outline of `t` with its root at `level`.
pub open spec fn tree_doc(t: ApiStructure, level: nat) -> Seq<char>
    decreases t, 1int, 0int,
{
    heading(level, t.name@) + forest_doc(t, t.children@.len() as int, level + 1)
}

/// The outlines of the first `n` nodes below `t`, each with its root at `level`.
pub open spec fn forest_doc(t: ApiStructure, n: int, level: nat) -> Seq<char>
    decreases t, 0int, n,
{
    if n <= 0 || n > t.children@.len() {
        Seq::empty()
    } else {
        forest_doc(t, n - 1, level) + tree_doc(t.children@[n - 1], level)
    }
}

/// How many levels the outline of `t` spans.
pub open spec fn tree_height(t: ApiStructure) -> nat
    decreases t, 1int, 0int,
{
    1 + forest_height(t, t.children@.len() as int)
}

/// The most levels that the outline of one of the first `n` nodes below `t` spans.
pub open spec fn forest_height(t: ApiStructure, n: int) -> nat
    decreases t, 0int, n,
{
    if n <= 0 || n > t.children@.len() {
        0
    } else {
        let a = forest_height(t, n - 1);
        let b = tree_height(t.children@[n - 1]);
        if a >= b { a } else { b }
    }
}

proof fn lemma_forest_height(t: ApiStructure, n: int, i: int)
    requires
        0 <= i < n <= t.children@.len(),
    ensures
        tree_height(t.children@[i]) <= forest_height(t, n),
    decreases n,
{
    if i < n - 1 {
        lemma_forest_height(t, n - 1, i);
    }
}

impl ApiStructure {
    /// The outline of this node and everything below it, with this node's heading at `level`:
    /// one line per node, its level in asterisks, a space and its name.
    pub fn to_asciidoc(&self, level: usize) -> (r: String)
        requires
            level + tree_height(*self) <= usize::MAX,
        ensures
            r@ == tree_doc(*self, level as nat),
        decreases self,
    {
        let mut out = String::new();
        append_stars(&mut out, level);
        proof {
            reveal_strlit(" ");
            reveal_strlit("\n");
        }
        out.append(" ");
        out.append(self.name.as_str());
        out.append("\n");
        assert(out@ =~= heading(level as nat, self.name@) + forest_doc(*self, 0, level as nat + 1));
        let mut i: usize = 0;
        while i < self.children.len()
            invariant
                i <= self.children@.len(),
                level + tree_height(*self) <= usize::MAX,
                out@ == heading(level as nat, self.name@) + forest_doc(*self, i as int, level as nat + 1),
            decreases self.children@.len() - i,
        {
            proof {
                lemma_forest_height(*self, self.children@.len() as int, i as int);
            }
            let child = self.children[i].to_asciidoc(level + 1);
            out.append(child.as_str());
            i = i + 1;
            assert(out@ =~= heading(level as nat, self.name@) + forest_doc(*self, i as int, level as nat + 1));
        }
        out
    }
}

/// An outline node as a name and the outlines below it.
pub struct Outline {
    pub name: Seq<char>,
    pub children: Seq<Outline>,
}

/// The outline that a node states.
pub open spec fn outline(t: ApiStructure) -> Outline
    decreases t, 1int, 0int,
{
    Outline { name: t.name@, children: outlines(t, t.children@.len() as int) }
}

/// The outlines of the first `n` nodes below `t`.
pub open spec fn outlines(t: ApiStructure, n: int) -> Seq<Outline>
    decreases t, 0int, n,
{
    if n <= 0 || n > t.children@.len() {
        Seq::empty()
    } else {
        outlines(t, n - 1).push(outline(t.children@[n - 1]))
    }
}

/// The outlines of a list of nodes.
pub open spec fn forest(nodes: Seq<ApiStructure>) -> Seq<Outline> {
    nodes.map_values(|t: ApiStructure| outline(t))
}

/// The index of the first of the first `n` nodes named `name`, or -1.
pub open spec fn first_named(nodes: Seq<Outline>, name: Seq<char>, n: int) -> int
    decreases n,
{
    if n <= 0 {
        -1
    } else if first_named(nodes, name, n - 1) >= 0 {
        first_named(nodes, name, n - 1)
    } else if nodes[n - 1].name == name {
        n - 1
    } else {
        -1
    }
}

/// The outline after filing `path`: where a node of the current level bears the next segment,
/// the rest goes below that node; otherwise the segment is added at the current level and the
/// rest is filed at that same level.
pub open spec fn file_path(nodes: Seq<Outline>, path: Seq<Seq<char>>) -> Seq<Outline>
    decreases path.len(),
{
    if path.len() == 0 {
        nodes
    } else {
        let k = first_named(nodes, path[0], nodes.len() as int);
        if k >= 0 {
            nodes.update(
                k,
                Outline { name: nodes[k].name, children: file_path(nodes[k].children, path.drop_first()) },
            )
        } else {
            file_path(nodes.push(Outline { name: path[0], children: Seq::empty() }), path.drop_first())
        }
    }
}

proof fn lemma_outlines(t: ApiStructure, n: int)
    requires
        0 <= n <= t.children@.len(),
    ensures
        outlines(t, n) == forest(t.children@.subrange(0, n)),
    decreases n,
{
    if n > 0 {
        lemma_outlines(t, n - 1);
        assert(t.children@.subrange(0, n - 1) =~= t.children@.subrange(0, n).drop_last());
        assert(forest(t.children@.subrange(0, n)) =~= forest(t.children@.subrange(0, n - 1)).push(
            outline(t.children@[n - 1]),
        ));
    } else {
        assert(forest(t.children@.subrange(0, n)) =~= Seq::<Outline>::empty());
    }
}

proof fn lemma_outline_children(t: ApiStructure)
    ensures
        outline(t).children == forest(t.children@),
{
    lemma_outlines(t, t.children@.len() as int);
    assert(t.children@.subrange(0, t.children@.len() as int) =~= t.children@);
}

/// The position of the first node named `name`, if any.
fn position(nodes: &Vec<ApiStructure>, name: &String) -> (r: Option<usize>)
    ensures
        match r {
            Some(i) => i == first_named(forest(nodes@), name@, nodes@.len() as int) && i < nodes@.len(),
            None => first_named(forest(nodes@), name@, nodes@.len() as int) == -1,
        },
{
    let ghost f = forest(nodes@);
    let mut i: usize = 0;
    while i < nodes.len()
        invariant
            i <= nodes@.len(),
            f == forest(nodes@),
            first_named(f, name@, i as int) == -1,
        decreases nodes@.len() - i,
    {
        if nodes[i].name == *name {
            assert(first_named(f, name@, i as int + 1) == i);
            proof {
                lemma_first_named_stays(f, name@, i as int + 1, nodes@.len() as int);
            }
            return Some(i);
        }
        i = i + 1;
    }
    None
}

proof fn lemma_first_named_stays(nodes: Seq<Outline>, name: Seq<char>, m: int, n: int)
    requires
        0 <= m <= n,
        first_named(nodes, name, m) >= 0,
    ensures
        first_named(nodes, name, n) == first_named(nodes, name, m),
    decreases n - m,
{
    if m < n {
        lemma_first_named_stays(nodes, name, m, n - 1);
    }
}

/// File `path` into the outline `nodes`, as `file_path` says.
pub fn insert_path(nodes: &mut Vec<ApiStructure>, path: &Vec<String>)
    ensures
        forest(final(nodes)@) == file_path(forest(old(nodes)@), crate::item::path_of(path@)),
{
    proof {
        assert(crate::item::path_of(path@).subrange(0, path@.len() as int) =~= crate::item::path_of(path@));
    }
    insert_from(nodes, path, 0);
}

fn insert_from(nodes: &mut Vec<ApiStructure>, path: &Vec<String>, from: usize)
    requires
        from <= path@.len(),
    ensures
        forest(final(nodes)@) == file_path(
            forest(old(nodes)@),
            crate::item::path_of(path@).subrange(from as int, path@.len() as int),
        ),
    decreases path@.len() - from,
{
    let ghost rest = crate::item::path_of(path@).subrange(from as int, path@.len() as int);
    if from == path.len() {
        assert(rest.len() == 0);
        return;
    }
    assert(rest.drop_first() =~= crate::item::path_of(path@).subrange(from + 1, path@.len() as int));
    assert(rest[0] == path@[from as int]@);
    let ghost before = forest(nodes@);
    match position(nodes, &path[from]) {
        Some(idx) => {
            let mut node = nodes.remove(idx);
            proof {
                lemma_outline_children(node);
            }
            insert_from(&mut node.children, path, from + 1);
            proof {
                lemma_outline_children(node);
            }
            nodes.insert(idx, node);
            assert(forest(nodes@) =~= before.update(
                idx as int,
                Outline { name: before[idx as int].name, children: file_path(before[idx as int].children, rest.drop_first()) },
            ));
        },
        None => {
            let name = path[from].clone();
            let leaf = ApiStructure { name, children: Vec::new() };
            proof {
                lemma_outline_children(leaf);
            }
            nodes.push(leaf);
            assert(outline(leaf).children =~= Seq::<Outline>::empty());
            assert(forest(nodes@) =~= before.push(Outline { name: rest[0], children: Seq::empty() }));
            insert_from(nodes, path, from + 1);
        },
    }
}

fn append_stars(s: &mut String, n: usize)
    ensures
        final(s)@ == old(s)@ + stars(n as nat),
{
    let mut i: usize = 0;
    while i < n
        invariant
            i <= n,
            s@ == old(s)@ + stars(i as nat),
        decreases n - i,
    {
        proof {
            reveal_strlit("*");
        }
        let ghost before = s@;
        s.append("*");
        assert(stars(i as nat).push('*') =~= stars(i as nat + 1));
        assert(s@ =~= before + seq!['*']);
        i = i + 1;
    }
}

} // verus!
