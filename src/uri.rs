//! Request URIs: an optional scheme and authority, and a path with an
//! optional query.
use vstd::prelude::*;
use vstd::slice::slice_to_vec;

verus! {

/// `i` is the position of the first `?` in `s`.
pub open spec fn query_mark_at(s: Seq<u8>, i: int) -> bool {
    &&& 0 <= i < s.len()
    &&& s[i] == 63
    &&& forall|j: int| 0 <= j < i ==> s[j] != 63
}

/// `s` holds no `?`.
pub open spec fn no_query_mark(s: Seq<u8>) -> bool {
    forall|j: int| 0 <= j < s.len() ==> s[j] != 63
}

/// An empty path stands for `/`.
pub open spec fn nonempty_path(p: Seq<u8>) -> Seq<u8> {
    if p.len() == 0 {
        seq![47u8]
    } else {
        p
    }
}

fn find_query_mark(s: &[u8]) -> (r: Option<usize>)
    ensures
        match r {
            Some(i) => query_mark_at(s@, i as int),
            None => no_query_mark(s@),
        },
{
    let mut i: usize = 0;
    while i < s.len()
        invariant
            0 <= i <= s@.len(),
            forall|j: int| 0 <= j < i ==> s@[j] != 63,
        decreases s@.len() - i,
    {
        if s[i] == 63 {
            return Some(i);
        }
        i = i + 1;
    }
    None
}

fn slash() -> (r: Vec<u8>)
    ensures
        r@ == seq![47u8],
{
    let r: Vec<u8> = vec![47];
    assert(r@ =~= seq![47u8]);
    r
}

fn copy_opt(s: Option<&[u8]>) -> (r: Option<Vec<u8>>)
    ensures
        match s {
            Some(x) => r is Some && r->0@ == x@,
            None => r is None,
        },
{
    match s {
        Some(x) => Some(slice_to_vec(x)),
        None => None,
    }
}

/// A request URI.
#[derive(Clone, Debug, PartialEq, Eq)]
pub struct Uri {
    scheme: Option<Vec<u8>>,
    authority: Option<Vec<u8>>,
    path_and_query: Vec<u8>,
}

impl Uri {
    pub closed spec fn scheme_view(&self) -> Option<Seq<u8>> {
        match &self.scheme {
            Some(s) => Some(s@),
            None => None,
        }
    }

    pub closed spec fn authority_view(&self) -> Option<Seq<u8>> {
        match &self.authority {
            Some(a) => Some(a@),
            None => None,
        }
    }

    pub closed spec fn path_and_query_view(&self) -> Seq<u8> {
        self.path_and_query@
    }

    /// A URI of a path and query alone; an empty one stands for `/`.
    pub fn from_path(path: &[u8]) -> (r: Uri)
        ensures
            r.scheme_view() is None,
            r.authority_view() is None,
            r.path_and_query_view() == nonempty_path(path@),
    {
        Uri::from_parts(None, None, path)
    }

    /// A URI of the given parts; an empty path stands for `/`.
    pub fn from_parts(scheme: Option<&[u8]>, authority: Option<&[u8]>, path: &[u8]) -> (r: Uri)
        ensures
            r.scheme_view() == match scheme {
                Some(s) => Some(s@),
                None => None::<Seq<u8>>,
            },
            r.authority_view() == match authority {
                Some(a) => Some(a@),
                None => None::<Seq<u8>>,
            },
            r.path_and_query_view() == nonempty_path(path@),
    {
        let pq = if path.len() == 0 {
            slash()
        } else {
            slice_to_vec(path)
        };
        Uri { scheme: copy_opt(scheme), authority: copy_opt(authority), path_and_query: pq }
    }

    pub fn scheme(&self) -> (r: Option<&[u8]>)
        ensures
            match r {
                Some(s) => self.scheme_view() == Some(s@),
                None => self.scheme_view() is None,
            },
    {
        match &self.scheme {
            Some(s) => Some(s.as_slice()),
            None => None,
        }
    }

    pub fn authority(&self) -> (r: Option<&[u8]>)
        ensures
            match r {
                Some(a) => self.authority_view() == Some(a@),
                None => self.authority_view() is None,
            },
    {
        match &self.authority {
            Some(a) => Some(a.as_slice()),
            None => None,
        }
    }

    pub fn path_and_query(&self) -> (r: &[u8])
        ensures
            r@ == self.path_and_query_view(),
    {
        self.path_and_query.as_slice()
    }

    /// The part before the first `?`; an empty one stands for `/`.
    pub fn path(&self) -> (r: Vec<u8>)
        ensures
            forall|i: int|
                query_mark_at(self.path_and_query_view(), i) ==> r@ == nonempty_path(
                    self.path_and_query_view().take(i),
                ),
            no_query_mark(self.path_and_query_view()) ==> r@ == nonempty_path(
                self.path_and_query_view(),
            ),
    {
        let pq = self.path_and_query.as_slice();
        let end = match find_query_mark(pq) {
            Some(i) => i,
            None => pq.len(),
        };
        let p = slice_to_vec(&pq[0..end]);
        assert(forall|i: int| query_mark_at(pq@, i) ==> i == end);
        if p.len() == 0 {
            slash()
        } else {
            p
        }
    }

    /// The part after the first `?`, when there is one.
    pub fn query(&self) -> (r: Option<Vec<u8>>)
        ensures
            forall|i: int|
                query_mark_at(self.path_and_query_view(), i) ==> r is Some && r->0@
                    == self.path_and_query_view().skip(i + 1),
            no_query_mark(self.path_and_query_view()) ==> r is None,
    {
        let pq = self.path_and_query.as_slice();
        match find_query_mark(pq) {
            Some(i) => {
                assert(forall|k: int| query_mark_at(pq@, k) ==> k == i);
                let n = pq.len();
                assert(i < n);
                let q = slice_to_vec(&pq[i + 1..n]);
                assert(q@ =~= pq@.skip(i + 1));
                Some(q)
            },
            None => None,
        }
    }
}

impl Default for Uri {
    fn default() -> (r: Uri)
        ensures
            r.scheme_view() is None,
            r.authority_view() is None,
            r.path_and_query_view() == seq![47u8],
    {
        Uri { scheme: None, authority: None, path_and_query: slash() }
    }
}

} // verus!
