use vstd::prelude::*;

use crate::path::{copy_strings, same_strings};

verus! {

/// A value stored in a log record.
#[derive(Clone, Debug, PartialEq, Eq)]
pub enum Value {
    Bytes(String),
    Array(Vec<String>),
}

/// What a stored value holds.
pub enum ValueView {
    Text(Seq<char>),
    List(Seq<Seq<char>>),
}

impl View for Value {
    type V = ValueView;

    open spec fn view(&self) -> ValueView {
        match self {
            Value::Bytes(s) => ValueView::Text(s@),
            Value::Array(v) => ValueView::List(v.deep_view()),
        }
    }
}

/// A log record: fields addressed by paths. Each path holds at most one value.
pub struct LogEvent {
    entries: Vec<(Vec<String>, Value)>,
    fields: Ghost<Map<Seq<Seq<char>>, ValueView>>,
}

impl View for LogEvent {
    type V = Map<Seq<Seq<char>>, ValueView>;

    closed spec fn view(&self) -> Map<Seq<Seq<char>>, ValueView> {
        self.fields@
    }
}

impl LogEvent {
    /// The stored entries agree with the record's fields, one entry per path.
    pub closed spec fn wf(&self) -> bool {
        &&& forall|i: int|
            0 <= i < self.entries.len() ==> {
                &&& self.fields@.contains_key(#[trigger] self.entries[i].0.deep_view())
                &&& self.fields@[self.entries[i].0.deep_view()] == self.entries[i].1@
            }
        &&& forall|i: int, j: int|
            0 <= i < j < self.entries.len() ==> #[trigger] self.entries[i].0.deep_view()
                != #[trigger] self.entries[j].0.deep_view()
        &&& forall|p: Seq<Seq<char>>|
            #[trigger] self.fields@.contains_key(p) ==> exists|i: int|
                0 <= i < self.entries.len() && #[trigger] self.entries[i].0.deep_view() == p
    }

    /// A record without fields.
    pub fn new() -> (r: LogEvent)
        ensures
            r.wf(),
            r@ == Map::<Seq<Seq<char>>, ValueView>::empty(),
    {
        LogEvent { entries: Vec::new(), fields: Ghost(Map::empty()) }
    }

    /// The index of the entry stored under a path, if there is one.
    fn find(&self, path: &Vec<String>) -> (r: Option<usize>)
        requires
            self.wf(),
        ensures
            match r {
                Some(i) => i < self.entries.len() && self.entries[i as int].0.deep_view()
                    == path.deep_view(),
                None => !self@.contains_key(path.deep_view()),
            },
    {
        let mut i: usize = 0;
        while i < self.entries.len()
            invariant
                self.wf(),
                i <= self.entries.len(),
                forall|j: int|
                    0 <= j < i ==> #[trigger] self.entries[j].0.deep_view() != path.deep_view(),
            decreases self.entries.len() - i,
        {
            if same_strings(&self.entries[i].0, path) {
                return Some(i);
            }
            i = i + 1;
        }
        None
    }

    /// Stores a value under a path, replacing what was there.
    pub fn insert(&mut self, path: &Vec<String>, value: Value)
        requires
            old(self).wf(),
        ensures
            final(self).wf(),
            final(self)@ == old(self)@.insert(path.deep_view(), value@),
    {
        let ghost key = path.deep_view();
        let ghost vv = value@;
        let found = self.find(path);
        match found {
            Some(i) => {
                let key_vec = copy_strings(&self.entries[i].0);
                self.entries.set(i, (key_vec, value));
            },
            None => {
                self.entries.push((copy_strings(path), value));
            },
        }
        self.fields = Ghost(self.fields@.insert(key, vv));
        assert forall|p: Seq<Seq<char>>| #[trigger] self.fields@.contains_key(p) implies exists|
            i: int,
        | 0 <= i < self.entries.len() && #[trigger] self.entries[i].0.deep_view() == p by {
            if p == key {
                match found {
                    Some(i) => {
                        assert(self.entries[i as int].0.deep_view() == p);
                    },
                    None => {
                        assert(self.entries[self.entries.len() - 1].0.deep_view() == p);
                    },
                }
            } else {
                assert(old(self)@.contains_key(p));
                let i = choose|i: int|
                    0 <= i < old(self).entries.len() && #[trigger] old(
                        self,
                    ).entries[i].0.deep_view() == p;
                assert(self.entries[i].0.deep_view() == p);
            }
        }
    }

    /// The value stored under a path.
    pub fn get(&self, path: &Vec<String>) -> (r: Option<&Value>)
        requires
            self.wf(),
        ensures
            match r {
                Some(v) => self@.contains_key(path.deep_view()) && self@[path.deep_view()] == v@,
                None => !self@.contains_key(path.deep_view()),
            },
    {
        match self.find(path) {
            Some(i) => Some(&self.entries[i].1),
            None => None,
        }
    }

    /// The paths that hold a value, each once.
    pub fn paths(&self) -> (r: Vec<Vec<String>>)
        requires
            self.wf(),
        ensures
            forall|i: int| 0 <= i < r.len() ==> self@.contains_key(#[trigger] r[i].deep_view()),
            forall|p: Seq<Seq<char>>|
                #[trigger] self@.contains_key(p) ==> exists|i: int|
                    0 <= i < r.len() && #[trigger] r[i].deep_view() == p,
            forall|i: int, j: int|
                0 <= i < j < r.len() ==> #[trigger] r[i].deep_view() != #[trigger] r[j].deep_view(),
    {
        let mut r: Vec<Vec<String>> = Vec::new();
        let mut i: usize = 0;
        while i < self.entries.len()
            invariant
                self.wf(),
                i <= self.entries.len(),
                r.len() == i,
                forall|j: int| 0 <= j < i ==> #[trigger] r[j].deep_view() == self.entries[j].0.deep_view(),
            decreases self.entries.len() - i,
        {
            r.push(copy_strings(&self.entries[i].0));
            i = i + 1;
        }
        assert forall|p: Seq<Seq<char>>| #[trigger] self@.contains_key(p) implies exists|i: int|
            0 <= i < r.len() && #[trigger] r[i].deep_view() == p by {
            let i = choose|i: int|
                0 <= i < self.entries.len() && #[trigger] self.entries[i].0.deep_view() == p;
            assert(r[i].deep_view() == p);
        }
        assert forall|i: int, j: int| 0 <= i < j < r.len() implies #[trigger] r[i].deep_view()
            != #[trigger] r[j].deep_view() by {
            assert(self.entries[i].0.deep_view() != self.entries[j].0.deep_view());
        }
        r
    }
}

} // verus!
