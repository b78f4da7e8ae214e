use vstd::prelude::*;

verus! {

/// A path into a log record: a sequence of segments, each one taken as a
/// whole (a `.` inside a segment is no separator).
#[derive(Clone, Debug, PartialEq, Eq)]
pub struct OwnedTargetPath {
    pub segments: Vec<String>,
}

impl View for OwnedTargetPath {
    type V = Seq<Seq<char>>;

    open spec fn view(&self) -> Seq<Seq<char>> {
        self.segments.deep_view()
    }
}

/// Copies a list of strings, keeping every character.
pub fn copy_strings(v: &Vec<String>) -> (r: Vec<String>)
    ensures
        r.deep_view() == v.deep_view(),
{
    let mut r: Vec<String> = Vec::new();
    let mut i: usize = 0;
    while i < v.len()
        invariant
            i <= v.len(),
            r.len() == i,
            forall|j: int| 0 <= j < i ==> #[trigger] r[j]@ == v[j]@,
        decreases v.len() - i,
    {
        let s = v[i].clone();
        r.push(s);
        i = i + 1;
    }
    assert(r.deep_view() =~= v.deep_view());
    r
}

/// Tells whether two lists of strings hold the same strings in the same order.
pub fn same_strings(a: &Vec<String>, b: &Vec<String>) -> (r: bool)
    ensures
        r == (a.deep_view() == b.deep_view()),
{
    if a.len() != b.len() {
        assert(a.deep_view().len() != b.deep_view().len());
        return false;
    }
    let mut i: usize = 0;
    while i < a.len()
        invariant
            i <= a.len(),
            a.len() == b.len(),
            forall|j: int| 0 <= j < i ==> a.deep_view()[j] == b.deep_view()[j],
        decreases a.len() - i,
    {
        if a[i] != b[i] {
            assert(a.deep_view()[i as int] != b.deep_view()[i as int]);
            return false;
        }
        i = i + 1;
    }
    assert(a.deep_view() =~= b.deep_view());
    true
}

impl OwnedTargetPath {
    /// A path into the event with the given segments.
    pub fn event(segments: Vec<String>) -> (r: OwnedTargetPath)
        ensures
            r@ == segments.deep_view(),
    {
        OwnedTargetPath { segments }
    }

    /// This path extended by one more segment, taken as it is.
    pub fn with_segment(&self, segment: &String) -> (r: OwnedTargetPath)
        ensures
            r@ == self@.push(segment@),
    {
        let mut segments = copy_strings(&self.segments);
        segments.push(segment.clone());
        assert(segments.deep_view() =~= self@.push(segment@));
        OwnedTargetPath { segments }
    }

    /// A copy of this path.
    pub fn duplicate(&self) -> (r: OwnedTargetPath)
        ensures
            r@ == self@,
    {
        OwnedTargetPath { segments: copy_strings(&self.segments) }
    }
}

} // verus!
