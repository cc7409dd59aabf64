use vstd::prelude::*;

use crate::primitive::Primitive;

verus! {

/// The one recoverable failure: a commit that would push the committed
/// length past the configured limit.
#[derive(Clone, Copy, Debug, PartialEq, Eq, Structural)]
pub enum CommitError {
    CapacityExceeded,
}

/// A configured length limit is either absent or positive.
pub open spec fn limit_valid(limit: Option<usize>) -> bool {
    match limit {
        Some(l) => l >= 1,
        None => true,
    }
}

/// Whether committing `additional` elements onto `len` committed ones would
/// exceed the configured limit. Committing nothing never fails.
pub open spec fn commit_would_exceed(limit: Option<usize>, len: nat, additional: nat) -> bool {
    match limit {
        Some(l) => additional > 0 && len + additional > l,
        None => false,
    }
}

/// Whether a committed length of `len` respects the configured limit.
pub open spec fn within_limit(limit: Option<usize>, len: nat) -> bool {
    match limit {
        Some(l) => len <= l,
        None => true,
    }
}

/// The committed contents after folding the first `count` elements of the
/// outstanding window into `data`.
pub open spec fn committed_after<T>(data: Seq<T>, window: Seq<T>, count: int) -> Seq<T>
    recommends
        0 <= count <= window.len(),
{
    data + window.subrange(0, count)
}

/// The committed contents after a run of successful commits: each round of
/// `rounds` holds the window that was outstanding and the count that was
/// folded in, exactly as one `commit` call states it with `committed_after`.
pub open spec fn run_commits<T>(start: Seq<T>, rounds: Seq<(Seq<T>, int)>) -> Seq<T>
    decreases rounds.len(),
{
    if rounds.len() == 0 {
        start
    } else {
        run_commits(committed_after(start, rounds[0].0, rounds[0].1), rounds.drop_first())
    }
}

/// The sum of the committed counts of a run.
pub open spec fn counts_sum<T>(rounds: Seq<(Seq<T>, int)>) -> int
    decreases rounds.len(),
{
    if rounds.len() == 0 {
        0
    } else {
        rounds[0].1 + counts_sum(rounds.drop_first())
    }
}

/// Law: over any run of successful commits, each committing a count no
/// larger than its outstanding window, the final committed length is the
/// starting length plus the sum of the committed counts.
pub proof fn lemma_run_commits_length<T>(start: Seq<T>, rounds: Seq<(Seq<T>, int)>)
    requires
        forall|i: int| 0 <= i < rounds.len() ==> 0 <= #[trigger] rounds[i].1 <= rounds[i].0.len(),
    ensures
        run_commits(start, rounds).len() == start.len() + counts_sum(rounds),
    decreases rounds.len(),
{
    if rounds.len() > 0 {
        let next = committed_after(start, rounds[0].0, rounds[0].1);
        assert(next.len() == start.len() + rounds[0].1);
        assert(forall|i: int|
            0 <= i < rounds.drop_first().len() ==> #[trigger] rounds.drop_first()[i]
                == rounds[i + 1]);
        lemma_run_commits_length(next, rounds.drop_first());
    }
}

/// A wrapper around a `Vec<T>` that exposes the vector's unused tail as a
/// writable "spare" window and lets the caller commit a filled prefix of
/// that window, extending the visible contents without copying.
///
/// The vector is held in one allocation: the committed contents are the
/// prefix below `committed`, and the outstanding window is the tail from
/// `committed` on. A commit only moves the `committed` mark.
pub struct SpareBuffer<T: Primitive> {
    buffer: Vec<T>,
    committed: usize,
    limit: Option<usize>,
    allocated: bool,
}

impl<T: Primitive> View for SpareBuffer<T> {
    type V = Seq<T>;

    /// The committed contents: the only elements that are logically part of
    /// the buffer.
    closed spec fn view(&self) -> Seq<T> {
        self.buffer@.subrange(0, self.committed as int)
    }
}

impl<T: Primitive> SpareBuffer<T> {
    /// Internal well-formedness: the committed mark stays within the
    /// storage, and a configured limit is positive.
    pub closed spec fn inv(&self) -> bool {
        self.committed <= self.buffer@.len() && limit_valid(self.limit)
    }

    /// True exactly while a spare window has been handed out and not yet
    /// consumed by a commit.
    pub closed spec fn pending(&self) -> bool {
        self.allocated
    }

    /// The configured length limit, if any.
    pub closed spec fn limit_spec(&self) -> Option<usize> {
        self.limit
    }

    /// The current spare window: the storage tail beyond the committed
    /// contents.
    pub closed spec fn window(&self) -> Seq<T> {
        self.buffer@.skip(self.committed as int)
    }

    /// Creates a new `SpareBuffer` holding an existing vector, whose
    /// contents count as already committed.
    ///
    /// An optional `limit` for the committed length can be specified;
    /// `commit` fails if it would exceed this limit.
    pub fn from(buffer: Vec<T>, limit: Option<usize>) -> (r: Self)
        requires
            limit_valid(limit),
        ensures
            r.inv(),
            !r.pending(),
            r@ == buffer@,
            r.limit_spec() == limit,
            r.window() == Seq::<T>::empty(),
    {
        let committed: usize = buffer.len();
        let r = SpareBuffer { buffer, committed, limit, allocated: false };
        proof {
            assert(r@ =~= buffer@);
            assert(r.window() =~= Seq::<T>::empty());
        }
        r
    }

    /// Returns the number of committed elements.
    pub fn len(&self) -> (r: usize)
        requires
            self.inv(),
        ensures
            r == self@.len(),
    {
        self.committed
    }

    /// Returns `true` if the buffer holds no committed elements.
    pub fn is_empty(&self) -> (r: bool)
        requires
            self.inv(),
        ensures
            r == (self@.len() == 0),
    {
        self.committed == 0
    }

    /// Returns the length limit, if a limit has been specified. Otherwise
    /// `None` is returned.
    pub fn limit(&self) -> (r: Option<usize>)
        ensures
            r == self.limit_spec(),
    {
        self.limit
    }

    /// Returns a slice of all committed elements, and only those: the spare
    /// window is never part of it.
    pub fn data(&self) -> (r: &[T])
        requires
            self.inv(),
        ensures
            r@ == self@,
    {
        vstd::slice::slice_subrange(self.buffer.as_slice(), 0, self.committed)
    }

    /// Allocates a spare window of at least `length` elements.
    ///
    /// Extends the storage so that at least `length` elements stand beyond
    /// the committed contents, then hands the whole unused tail out as the
    /// new window, which may be larger than asked. The committed contents
    /// are untouched. Window contents are unspecified until written with
    /// `write_spare`: slots may hold stale values from earlier rounds or an
    /// arbitrary filler.
    ///
    /// Returns the size of the new window. Any earlier window is superseded:
    /// only the most recently allocated window is the one a later `commit`
    /// consumes.
    pub fn allocate_spare(&mut self, length: usize) -> (r: usize)
        requires
            old(self).inv(),
            length >= 1,
            old(self)@.len() + length <= usize::MAX,
        ensures
            final(self).inv(),
            final(self).pending(),
            final(self)@ == old(self)@,
            final(self).limit_spec() == old(self).limit_spec(),
            r == final(self).window().len(),
            r >= length,
    {
        let target: usize = self.committed + length;
        while self.buffer.len() < target
            invariant
                self.committed == old(self).committed,
                self.limit == old(self).limit,
                self.committed <= self.buffer@.len(),
                target == self.committed + length,
                self.buffer@.subrange(0, self.committed as int) == old(self)@,
            decreases target - self.buffer@.len(),
        {
            let ghost prev = self.buffer@;
            self.buffer.push(T::filler());
            proof {
                assert(self.buffer@.subrange(0, self.committed as int) =~= prev.subrange(
                    0,
                    self.committed as int,
                ));
            }
        }
        self.allocated = true;
        proof {
            assert(self@ =~= old(self)@);
        }
        self.buffer.len() - self.committed
    }

    /// Writes `value` into slot `index` of the outstanding window. The
    /// committed contents are untouched; the slot becomes part of them only
    /// if a later `commit` covers it.
    pub fn write_spare(&mut self, index: usize, value: T)
        requires
            old(self).inv(),
            old(self).pending(),
            index < old(self).window().len(),
        ensures
            final(self).inv(),
            final(self).pending(),
            final(self)@ == old(self)@,
            final(self).limit_spec() == old(self).limit_spec(),
            final(self).window() == old(self).window().update(index as int, value),
    {
        let storage_len: usize = self.buffer.len();
        proof {
            assert(self.committed + index < storage_len);
        }
        let slot: usize = self.committed + index;
        let place = &mut self.buffer[slot];
        *place = value;
        proof {
            assert(self@ =~= old(self)@);
            assert(self.window() =~= old(self).window().update(index as int, value));
        }
    }

    /// Commits the first `additional` elements of the outstanding window.
    ///
    /// On success the committed contents are extended by exactly the first
    /// `additional` window elements — a bookkeeping update, no element is
    /// copied — and the window is consumed, whether `additional` is zero or
    /// positive: a new window must be allocated before the next commit.
    ///
    /// # Errors
    ///
    /// If a length limit has been specified and committing `additional`
    /// elements would push the committed length past it, the commit fails
    /// with [`CommitError::CapacityExceeded`] and the committed contents are
    /// left unchanged; the window is consumed all the same. Without a limit
    /// the commit always succeeds.
    pub fn commit(&mut self, additional: usize) -> (r: Result<(), CommitError>)
        requires
            old(self).inv(),
            old(self).pending(),
            additional <= old(self).window().len(),
        ensures
            final(self).inv(),
            !final(self).pending(),
            final(self).limit_spec() == old(self).limit_spec(),
            r is Err <==> commit_would_exceed(
                old(self).limit_spec(),
                old(self)@.len(),
                additional as nat,
            ),
            r is Err ==> r == Result::<(), CommitError>::Err(CommitError::CapacityExceeded)
                && final(self)@ == old(self)@,
            r is Ok ==> final(self)@ == committed_after(
                old(self)@,
                old(self).window(),
                additional as int,
            ),
            old(self).limit_spec() is None ==> r is Ok,
            r is Ok ==> final(self)@.len() == old(self)@.len() + additional,
            within_limit(old(self).limit_spec(), old(self)@.len()) ==> within_limit(
                final(self).limit_spec(),
                final(self)@.len(),
            ),
    {
        self.allocated = false;
        let storage_len: usize = self.buffer.len();
        proof {
            assert(self.committed + additional <= storage_len);
        }
        if additional > 0 {
            let new_length: usize = self.committed + additional;
            let exceeded: bool = match self.limit {
                Some(l) => new_length > l,
                None => false,
            };
            if exceeded {
                return Err(CommitError::CapacityExceeded);
            }
            self.committed = new_length;
        }
        proof {
            assert(self@ =~= committed_after(old(self)@, old(self).window(), additional as int));
        }
        Ok(())
    }

    /// The same as `commit`, but without the limit check and without asking
    /// that a window be pending: whatever tail elements stand beyond the
    /// committed contents are folded in as they are, and the committed
    /// length may end up past the configured limit.
    pub fn commit_unchecked(&mut self, additional: usize)
        requires
            old(self).inv(),
            additional <= old(self).window().len(),
        ensures
            final(self).inv(),
            !final(self).pending(),
            final(self).limit_spec() == old(self).limit_spec(),
            final(self)@ == committed_after(old(self)@, old(self).window(), additional as int),
            final(self)@.len() == old(self)@.len() + additional,
    {
        self.allocated = false;
        let storage_len: usize = self.buffer.len();
        proof {
            assert(self.committed + additional <= storage_len);
        }
        if additional > 0 {
            self.committed = self.committed + additional;
        }
        proof {
            assert(self@ =~= committed_after(old(self)@, old(self).window(), additional as int));
        }
    }

    /// Consumes the buffer and returns the underlying vector, holding the
    /// committed contents and nothing else: an unconsumed window is
    /// discarded.
    pub fn into_inner(self) -> (r: Vec<T>)
        requires
            self.inv(),
        ensures
            r@ == self@,
    {
        let SpareBuffer { buffer: mut buffer, committed, limit: _, allocated: _ } = self;
        buffer.truncate(committed);
        buffer
    }
}

} // verus!
