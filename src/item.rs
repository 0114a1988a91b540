use vstd::prelude::*;

verus! {

/// A path: the sequence of name segments that identifies one declared entity.
pub type Path = Seq<Seq<char>>;

/// The path of a declared entity, such as `B::C` for variant `C` of enum `B`.
#[derive(Debug)]
pub struct Item {
    /// The name segments, outermost first.
    pub segments: Vec<String>,
}

/// The characters of each segment, in order.
pub open spec fn path_of(segments: Seq<String>) -> Path {
    segments.map_values(|s: String| s@)
}

impl View for Item {
    type V = Path;

    open spec fn view(&self) -> Path {
        path_of(self.segments@)
    }
}

impl Item {
    /// The empty path, naming the root of a program.
    pub fn new() -> (r: Item)
        ensures
            r@ == Seq::<Seq<char>>::empty(),
    {
        let r = Item { segments: Vec::new() };
        assert(r@ =~= Seq::<Seq<char>>::empty());
        r
    }

    /// The path made of the given segments.
    pub fn with_segments(segments: Vec<String>) -> (r: Item)
        ensures
            r@ == path_of(segments@),
    {
        Item { segments }
    }

    /// The path made of the segments of `self` followed by `segment`.
    pub fn join(&self, segment: &str) -> (r: Item)
        ensures
            r@ == self@.push(segment@),
    {
        let mut r = self.copy();
        let s = segment.to_owned();
        r.segments.push(s);
        assert(r@ =~= self@.push(segment@));
        r
    }

    /// A copy of the path, with equal segments.
    pub fn copy(&self) -> (r: Item)
        ensures
            r@ == self@,
    {
        let mut segments: Vec<String> = Vec::new();
        let mut i: usize = 0;
        while i < self.segments.len()
            invariant
                i <= self.segments@.len(),
                path_of(segments@) =~= self@.subrange(0, i as int),
            decreases self.segments@.len() - i,
        {
            let segment = self.segments[i].clone();
            assert(segment@ == self@[i as int]);
            let ghost before = segments@;
            segments.push(segment);
            assert(segments@ == before.push(segment));
            assert(path_of(segments@) =~= path_of(before).push(segment@));
            i = i + 1;
            assert(path_of(segments@) =~= self@.subrange(0, i as int));
        }
        assert(self@.subrange(0, i as int) =~= self@);
        Item { segments }
    }

    /// The number of segments.
    pub fn len(&self) -> (r: usize)
        ensures
            r == self@.len(),
    {
        self.segments.len()
    }

    /// The segments of the path.
    pub fn segments(&self) -> (r: &Vec<String>)
        ensures
            path_of(r@) == self@,
    {
        &self.segments
    }
}

} // verus!
