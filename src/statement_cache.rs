//! The persistent prepared statements of one connection, keyed by their query
//! text. Statements are only ever appended, so an index once handed out
//! designates the same statement for the life of the cache.
use vstd::prelude::*;

use crate::response::text_eq;

verus! {

pub struct StatementCache<S> {
    queries: Vec<String>,
    statements: Vec<S>,
}

impl<S> StatementCache<S> {
    /// The query text of each cached statement, by index.
    pub closed spec fn spec_queries(&self) -> Seq<Seq<char>> {
        self.queries@.map_values(|q: String| q@)
    }

    /// The cached statements, by index.
    pub closed spec fn spec_statements(&self) -> Seq<S> {
        self.statements@
    }

    /// One statement per query text, each text once.
    pub closed spec fn wf(&self) -> bool {
        &&& self.queries@.len() == self.statements@.len()
        &&& forall|i: int, j: int|
            0 <= i < j < self.queries@.len() ==> #[trigger] self.queries@[i]@
                != #[trigger] self.queries@[j]@
    }

    pub fn new() -> (r: StatementCache<S>)
        ensures
            r.wf(),
            r.spec_queries().len() == 0,
            r.spec_statements().len() == 0,
    {
        StatementCache { queries: Vec::new(), statements: Vec::new() }
    }

    pub fn len(&self) -> (r: usize)
        requires
            self.wf(),
        ensures
            r == self.spec_statements().len(),
            r == self.spec_queries().len(),
    {
        self.statements.len()
    }

    /// The index of the statement cached for `query`, if there is one.
    pub fn find(&self, query: &str) -> (r: Option<usize>)
        requires
            self.wf(),
        ensures
            match r {
                Some(i) => i < self.spec_queries().len() && self.spec_queries()[i as int]
                    == query@,
                None => forall|i: int|
                    0 <= i < self.spec_queries().len() ==> #[trigger] self.spec_queries()[i]
                        != query@,
            },
    {
        let mut i: usize = 0;
        while i < self.queries.len()
            invariant
                i <= self.queries@.len(),
                forall|k: int| 0 <= k < i ==> #[trigger] self.queries@[k]@ != query@,
            decreases self.queries@.len() - i,
        {
            if text_eq(self.queries[i].as_str(), query) {
                return Some(i);
            }
            i = i + 1;
        }
        None
    }

    /// The statement at `index`.
    pub fn get(&self, index: usize) -> (r: &S)
        requires
            self.wf(),
            index < self.spec_statements().len(),
        ensures
            *r == self.spec_statements()[index as int],
    {
        &self.statements[index]
    }

    /// Caches `statement` for `query`, which has none yet, and gives its index.
    pub fn insert(&mut self, query: String, statement: S) -> (r: usize)
        requires
            old(self).wf(),
            forall|i: int|
                0 <= i < old(self).spec_queries().len() ==> #[trigger] old(self).spec_queries()[i]
                    != query@,
        ensures
            final(self).wf(),
            r == old(self).spec_statements().len(),
            final(self).spec_queries() == old(self).spec_queries().push(query@),
            final(self).spec_statements() == old(self).spec_statements().push(statement),
    {
        let index = self.statements.len();
        proof {
            assert forall|i: int| 0 <= i < self.queries@.len() implies self.queries@[i]@
                != query@ by {
                assert(self.spec_queries()[i] == self.queries@[i]@);
            }
        }
        self.queries.push(query);
        self.statements.push(statement);
        proof {
            assert(self.spec_queries() =~= old(self).spec_queries().push(query@));
        }
        index
    }

    /// Releases every statement, in index order.
    pub fn clear(&mut self)
        ensures
            final(self).wf(),
            final(self).spec_queries().len() == 0,
            final(self).spec_statements().len() == 0,
    {
        self.statements.clear();
        self.queries.clear();
    }
}

} // verus!
