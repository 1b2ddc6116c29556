use vstd::prelude::*;

verus! {

/// The abstract contents of a log: every inserted value, oldest first.
pub type LogView = Seq<Seq<char>>;

/// The log that holds nothing.
pub open spec fn empty_log() -> LogView {
    Seq::empty()
}

/// The log after `value` is appended to `log`.
pub open spec fn log_insert(log: LogView, value: Seq<char>) -> LogView {
    log.push(value)
}

/// Whether `value` equals some entry of `log`.
pub open spec fn log_has(log: LogView, value: Seq<char>) -> bool {
    log.contains(value)
}

/// The log after each value of `values` is appended to `log`, in order.
pub open spec fn log_insert_all(log: LogView, values: Seq<Seq<char>>) -> LogView
    decreases values.len(),
{
    if values.len() == 0 {
        log
    } else {
        log_insert(log_insert_all(log, values.drop_last()), values.last())
    }
}

/// The view of each string of `v`, in order.
pub open spec fn strings_view(v: Seq<String>) -> Seq<Seq<char>> {
    v.map_values(|s: String| s@)
}

/// An append-only, insertion-ordered collection of strings that keeps duplicates.
#[allow(non_camel_case_types)]
pub struct String_Stack {
    collections: Vec<String>,
}

impl View for String_Stack {
    type V = LogView;

    closed spec fn view(&self) -> LogView {
        strings_view(self.collections@)
    }
}

impl String_Stack {
    /// An empty log.
    pub fn new() -> (r: String_Stack)
        ensures
            r@ == empty_log(),
    {
        let r = String_Stack { collections: Vec::new() };
        assert(r@ =~= empty_log());
        r
    }

    /// Whether `object` equals some entry, compared as whole strings.
    pub fn has(&self, object: &str) -> (r: bool)
        ensures
            r == log_has(self@, object@),
    {
        let target: String = object.to_owned();
        let n: usize = self.collections.len();
        let mut i: usize = 0;
        while i < n
            invariant
                n == self.collections@.len(),
                i <= n,
                target@ == object@,
                forall|j: int| 0 <= j < i ==> #[trigger] self@[j] != object@,
            decreases n - i,
        {
            if self.collections[i] == target {
                assert(self@[i as int] == object@);
                return true;
            }
            i = i + 1;
        }
        assert forall|j: int| 0 <= j < self@.len() implies #[trigger] self@[j] != object@ by {}
        false
    }

    /// Appends `object` at the end; there is no failure case, so this always returns `true`.
    pub fn insert(&mut self, object: &str) -> (r: bool)
        ensures
            r,
            final(self)@ == log_insert(old(self)@, object@),
    {
        self.collections.push(object.to_owned());
        assert(self@ =~= log_insert(old(self)@, object@));
        true
    }

    /// The entries, oldest first.
    pub fn snapshot(&self) -> (r: Vec<String>)
        ensures
            strings_view(r@) == self@,
    {
        let mut r: Vec<String> = Vec::new();
        let n: usize = self.collections.len();
        let mut i: usize = 0;
        while i < n
            invariant
                n == self.collections@.len(),
                i <= n,
                strings_view(r@) =~= self@.subrange(0, i as int),
            decreases n - i,
        {
            let s: String = self.collections[i].clone();
            assert(s@ == self@[i as int]);
            let ghost before = r@;
            r.push(s);
            assert(strings_view(r@) =~= strings_view(before).push(s@));
            assert(strings_view(r@) =~= self@.subrange(0, i + 1));
            i = i + 1;
        }
        assert(self@.subrange(0, n as int) =~= self@);
        r
    }
}

/// Inserting `v1, ..., vn` into a new log leaves exactly `[v1, ..., vn]`, in that
/// order: nothing is reordered and nothing is merged.
pub proof fn lemma_snapshot_after_inserts(values: Seq<Seq<char>>)
    ensures
        log_insert_all(empty_log(), values) == values,
    decreases values.len(),
{
    if values.len() > 0 {
        lemma_snapshot_after_inserts(values.drop_last());
        assert(values.drop_last().push(values.last()) =~= values);
    }
}

/// After `v1, ..., vn` are inserted into a new log, a value is found exactly when it
/// equals one of them; a value never inserted is not found.
pub proof fn lemma_has_iff_inserted(values: Seq<Seq<char>>, x: Seq<char>)
    ensures
        log_has(log_insert_all(empty_log(), values), x) <==> values.contains(x),
{
    lemma_snapshot_after_inserts(values);
}

/// Inserting one value twice lengthens the log by two, and the value is found.
pub proof fn lemma_insert_twice(log: LogView, v: Seq<char>)
    ensures
        log_insert(log_insert(log, v), v).len() == log.len() + 2,
        log_has(log_insert(log_insert(log, v), v), v),
{
    let l2 = log_insert(log_insert(log, v), v);
    assert(l2[l2.len() - 1] == v);
}

/// A new log finds no value.
pub proof fn lemma_empty_has_nothing(x: Seq<char>)
    ensures
        !log_has(empty_log(), x),
{
}

} // verus!
