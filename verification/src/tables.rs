//! Fetching the tables of a document: the listing first, then one fetch for
//! each reference that the listing gave, in its order. A failed listing ends
//! it before any fetch; a failed fetch ends it before the next one, and what
//! was fetched until then is dropped.

use crate::client::ClientTablesError;
use vstd::prelude::*;

verus! {

/// A fetch of tables in progress: the references still to fetch, and the
/// tables fetched so far.
pub struct TablesFetch<Ref, Table> {
    pending: Vec<Ref>,
    tables: Vec<Table>,
}

/// What a fetch of tables does next.
pub enum TablesStep<Ref, Table, L, G> {
    /// Fetch the table of this reference, and hand the outcome to the fetch
    /// given beside it.
    Fetch(Ref, TablesFetch<Ref, Table>),
    /// Every table is fetched: these are the tables, in the order of the
    /// listing.
    Done(Vec<Table>),
    /// The listing or a fetch failed; nothing more is to be fetched.
    Failed(ClientTablesError<L, G>),
}

impl<Ref, Table> TablesFetch<Ref, Table> {
    /// The references still to fetch after the one in hand, in order.
    pub closed spec fn pending(&self) -> Seq<Ref> {
        self.pending@
    }

    /// The tables fetched so far, in order.
    pub closed spec fn fetched(&self) -> Seq<Table> {
        self.tables@
    }

    /// What to do with `pending` references still to fetch and `tables`
    /// fetched: fetch the first reference, or be done.
    fn next<L, G>(pending: Vec<Ref>, tables: Vec<Table>) -> (step: TablesStep<Ref, Table, L, G>)
        ensures
            if pending@.len() == 0 {
                step matches TablesStep::Done(all) && all@ == tables@
            } else {
                step matches TablesStep::Fetch(r, rest) && r == pending@[0] && rest.pending()
                    == pending@.skip(1) && rest.fetched() == tables@
            },
    {
        let mut pending = pending;
        if pending.len() == 0 {
            TablesStep::Done(tables)
        } else {
            let ghost before = pending@;
            let first = pending.remove(0);
            assert(pending@ =~= before.skip(1));
            TablesStep::Fetch(first, TablesFetch { pending, tables })
        }
    }

    /// Takes in the listing. A failed listing ends the fetch at once; an
    /// empty one is done at once; otherwise the first reference is to be
    /// fetched.
    pub fn begin<L, G>(listing: Result<Vec<Ref>, L>) -> (step: TablesStep<Ref, Table, L, G>)
        ensures
            match listing {
                Err(source) => step == TablesStep::<Ref, Table, L, G>::Failed(
                    ClientTablesError::ListTablesFailed { source },
                ),
                Ok(refs) => if refs@.len() == 0 {
                    step matches TablesStep::Done(all) && all@.len() == 0
                } else {
                    step matches TablesStep::Fetch(r, rest) && r == refs@[0] && rest.pending()
                        == refs@.skip(1) && rest.fetched().len() == 0
                },
            },
    {
        match listing {
            Err(source) => TablesStep::Failed(ClientTablesError::ListTablesFailed { source }),
            Ok(refs) => Self::next(refs, Vec::new()),
        }
    }

    /// Takes in the outcome of the fetch that was asked for. A failure ends
    /// the fetch; a table is kept, and the next reference is to be fetched,
    /// or all is done.
    pub fn accept<L, G>(self, outcome: Result<Table, G>) -> (step: TablesStep<Ref, Table, L, G>)
        ensures
            match outcome {
                Err(source) => step == TablesStep::<Ref, Table, L, G>::Failed(
                    ClientTablesError::GetTableFailed { source },
                ),
                Ok(table) => if self.pending().len() == 0 {
                    step matches TablesStep::Done(all) && all@ == self.fetched().push(table)
                } else {
                    step matches TablesStep::Fetch(r, rest) && r == self.pending()[0]
                        && rest.pending() == self.pending().skip(1) && rest.fetched()
                        == self.fetched().push(table)
                },
            },
    {
        match outcome {
            Err(source) => TablesStep::Failed(ClientTablesError::GetTableFailed { source }),
            Ok(table) => {
                let mut tables = self.tables;
                tables.push(table);
                Self::next(self.pending, tables)
            },
        }
    }
}

/// What `need` fetches come to, one for each reference still to fetch, when
/// they end as `outcomes` say, one after the other, with `got` fetched
/// before: all tables in order, or the first failure; `None` where the
/// record ends before the fetches do.
pub open spec fn fetch_result<Table, G>(
    need: nat,
    got: Seq<Table>,
    outcomes: Seq<Result<Table, G>>,
) -> Option<Result<Seq<Table>, G>>
    decreases need,
{
    if need == 0 {
        Some(Ok(got))
    } else if outcomes.len() == 0 {
        None
    } else {
        match outcomes[0] {
            Err(source) => Some(Err(source)),
            Ok(table) => fetch_result((need - 1) as nat, got.push(table), outcomes.drop_first()),
        }
    }
}

/// How many of `need` fetches are made when they end as `outcomes` say:
/// none after a failure, none beyond the record.
pub open spec fn fetch_count<Table, G>(need: nat, outcomes: Seq<Result<Table, G>>) -> nat
    decreases need,
{
    if need == 0 || outcomes.len() == 0 {
        0
    } else {
        match outcomes[0] {
            Err(_) => 1,
            Ok(_) => 1 + fetch_count((need - 1) as nat, outcomes.drop_first()),
        }
    }
}

/// What listing the tables and fetching each of them comes to, when the
/// fetches end as `outcomes` say: the failure of the listing, else the first
/// failure of a fetch, else one table for each reference, in order; `None`
/// where the record ends before the fetches do.
pub open spec fn tables_outcome<Ref, Table, L, G>(
    listing: Result<Vec<Ref>, L>,
    outcomes: Seq<Result<Table, G>>,
) -> Option<Result<Seq<Table>, ClientTablesError<L, G>>> {
    match listing {
        Err(source) => Some(Err(ClientTablesError::ListTablesFailed { source })),
        Ok(refs) => match fetch_result(refs@.len(), Seq::empty(), outcomes) {
            None => None,
            Some(Ok(tables)) => Some(Ok(tables)),
            Some(Err(source)) => Some(Err(ClientTablesError::GetTableFailed { source })),
        },
    }
}

/// How many fetches are made after `listing`, when they end as `outcomes`
/// say: none after a failed listing, else at most one for each reference.
pub open spec fn tables_fetches<Ref, Table, L, G>(
    listing: Result<Vec<Ref>, L>,
    outcomes: Seq<Result<Table, G>>,
) -> nat {
    match listing {
        Err(_) => 0,
        Ok(refs) => fetch_count(refs@.len(), outcomes),
    }
}

/// What a recorded fetch of tables came to, and how many fetches it made.
pub struct TablesFetched<Table, L, G> {
    /// The tables in order, or the failure that ended the fetch; `None`
    /// where the record ended before the fetch did.
    pub result: Option<Result<Vec<Table>, ClientTablesError<L, G>>>,
    /// How many recorded fetches were made.
    pub fetched: usize,
}

/// Fetches the tables of a listing from a record: the fetch of the first
/// reference gets the first outcome, the next fetch the next one, until the
/// fetch of tables ends. Outcomes after that are not looked at.
pub fn tables_recorded<Ref, Table, L, G>(
    listing: Result<Vec<Ref>, L>,
    outcomes: Vec<Result<Table, G>>,
) -> (r: TablesFetched<Table, L, G>)
    ensures
        match tables_outcome(listing, outcomes@) {
            None => r.result is None,
            Some(Ok(tables)) => r.result matches Some(Ok(all)) && all@ == tables,
            Some(Err(error)) => r.result == Some(
                Err::<Vec<Table>, ClientTablesError<L, G>>(error),
            ),
        },
        r.fetched == tables_fetches(listing, outcomes@),
{
    let mut step: TablesStep<Ref, Table, L, G> = TablesFetch::begin(listing);
    let mut fetched: usize = 0;
    proof {
        assert(outcomes@.len() == outcomes.len());
        assert(outcomes@.skip(0) =~= outcomes@);
        assert(step matches TablesStep::Fetch(_, state) ==> state.fetched()
            =~= Seq::<Table>::empty());
        assert(step matches TablesStep::Done(all) ==> all@ =~= Seq::<Table>::empty());
    }
    for outcome in it: outcomes
        invariant
            it.seq() == outcomes@,
            outcomes@.len() <= usize::MAX,
            fetched <= it.index(),
            match step {
                TablesStep::Fetch(_, state) => {
                    &&& fetched == it.index()
                    &&& listing is Ok
                    &&& fetch_result(listing->Ok_0@.len(), Seq::<Table>::empty(), outcomes@)
                        == fetch_result(
                        state.pending().len() + 1,
                        state.fetched(),
                        outcomes@.skip(fetched as int),
                    )
                    &&& fetch_count(listing->Ok_0@.len(), outcomes@) == fetched + fetch_count(
                        state.pending().len() + 1,
                        outcomes@.skip(fetched as int),
                    )
                },
                TablesStep::Done(all) => {
                    &&& tables_outcome(listing, outcomes@) == Some(
                        Ok::<Seq<Table>, ClientTablesError<L, G>>(all@),
                    )
                    &&& tables_fetches(listing, outcomes@) == fetched
                },
                TablesStep::Failed(error) => {
                    &&& tables_outcome(listing, outcomes@) == Some(
                        Err::<Seq<Table>, ClientTablesError<L, G>>(error),
                    )
                    &&& tables_fetches(listing, outcomes@) == fetched
                },
            },
    {
        match step {
            TablesStep::Fetch(_, state) => {
                proof {
                    let rest = outcomes@.skip(fetched as int);
                    assert(rest[0] == outcome);
                    assert(rest.drop_first() =~= outcomes@.skip(fetched + 1));
                    reveal_with_fuel(fetch_result, 2);
                    reveal_with_fuel(fetch_count, 2);
                }
                fetched += 1;
                step = state.accept(outcome);
            },
            TablesStep::Done(all) => {
                return TablesFetched { result: Some(Ok(all)), fetched };
            },
            TablesStep::Failed(error) => {
                return TablesFetched { result: Some(Err(error)), fetched };
            },
        }
    }
    match step {
        TablesStep::Fetch(_, _) => {
            proof {
                assert(outcomes@.skip(fetched as int).len() == 0);
            }
            TablesFetched { result: None, fetched }
        },
        TablesStep::Done(all) => TablesFetched { result: Some(Ok(all)), fetched },
        TablesStep::Failed(error) => TablesFetched { result: Some(Err(error)), fetched },
    }
}

/// Where every one of `need` fetches succeeds, they are all made, and the
/// tables are what was fetched before and then the table of each fetch, in
/// order.
pub proof fn lemma_fetch_all<Table, G>(need: nat, got: Seq<Table>, outcomes: Seq<Result<Table, G>>)
    requires
        need <= outcomes.len(),
        forall|i: int| 0 <= i < need ==> (#[trigger] outcomes[i]) is Ok,
    ensures
        fetch_result(need, got, outcomes) == Some(
            Ok::<Seq<Table>, G>(got + Seq::new(need, |i: int| outcomes[i]->Ok_0)),
        ),
        fetch_count(need, outcomes) == need,
    decreases need,
{
    if need == 0 {
        assert(got + Seq::new(need, |i: int| outcomes[i]->Ok_0) =~= got);
    } else {
        let rest = outcomes.drop_first();
        assert(outcomes[0] is Ok);
        assert(forall|i: int| 0 <= i < rest.len() ==> #[trigger] rest[i] == outcomes[i + 1]);
        lemma_fetch_all((need - 1) as nat, got.push(outcomes[0]->Ok_0), rest);
        assert(got.push(outcomes[0]->Ok_0) + Seq::new((need - 1) as nat, |i: int| rest[i]->Ok_0)
            =~= got + Seq::new(need, |i: int| outcomes[i]->Ok_0));
    }
}

/// Where the fetch at `at` is the first to fail, the fetches end with its
/// failure, and `at + 1` fetches are made: none after the failure.
pub proof fn lemma_fetch_failure<Table, G>(
    need: nat,
    got: Seq<Table>,
    outcomes: Seq<Result<Table, G>>,
    at: int,
)
    requires
        0 <= at < need,
        at < outcomes.len(),
        outcomes[at] is Err,
        forall|i: int| 0 <= i < at ==> (#[trigger] outcomes[i]) is Ok,
    ensures
        fetch_result(need, got, outcomes) == Some(Err::<Seq<Table>, G>(outcomes[at]->Err_0)),
        fetch_count(need, outcomes) == at + 1,
    decreases need,
{
    if at > 0 {
        let rest = outcomes.drop_first();
        assert(outcomes[0] is Ok);
        assert(forall|i: int| 0 <= i < rest.len() ==> #[trigger] rest[i] == outcomes[i + 1]);
        lemma_fetch_failure((need - 1) as nat, got.push(outcomes[0]->Ok_0), rest, at - 1);
    }
}

/// The tables of a document, in short: a failed listing fails with no fetch
/// made; otherwise the first failed fetch fails with no fetch made after it;
/// otherwise there is one fetch for each reference, and the tables come in
/// the order of the references.
pub proof fn lemma_tables<Ref, Table, L, G>(
    listing: Result<Vec<Ref>, L>,
    outcomes: Seq<Result<Table, G>>,
)
    ensures
        listing matches Err(source) ==> tables_outcome(listing, outcomes) == Some(
            Err::<Seq<Table>, ClientTablesError<L, G>>(
                ClientTablesError::ListTablesFailed { source },
            ),
        ) && tables_fetches(listing, outcomes) == 0,
        listing matches Ok(refs) ==> forall|at: int|
            0 <= at < refs@.len() && at < outcomes.len() && (#[trigger] outcomes[at]) is Err && (
            forall|i: int| 0 <= i < at ==> (#[trigger] outcomes[i]) is Ok) ==> tables_outcome(
                listing,
                outcomes,
            ) == Some(
                Err::<Seq<Table>, ClientTablesError<L, G>>(
                    ClientTablesError::GetTableFailed { source: outcomes[at]->Err_0 },
                ),
            ) && tables_fetches(listing, outcomes) == at + 1,
        listing matches Ok(refs) ==> refs@.len() <= outcomes.len() && (forall|i: int|
            0 <= i < refs@.len() ==> (#[trigger] outcomes[i]) is Ok) ==> tables_outcome(
            listing,
            outcomes,
        ) == Some(
            Ok::<Seq<Table>, ClientTablesError<L, G>>(
                Seq::new(refs@.len(), |i: int| outcomes[i]->Ok_0),
            ),
        ) && tables_fetches(listing, outcomes) == refs@.len(),
{
    if let Ok(refs) = listing {
        let need = refs@.len();
        assert forall|at: int|
            0 <= at < need && at < outcomes.len() && (#[trigger] outcomes[at]) is Err && (
            forall|i: int| 0 <= i < at ==> (#[trigger] outcomes[i]) is Ok) implies tables_outcome(
            listing,
            outcomes,
        ) == Some(
            Err::<Seq<Table>, ClientTablesError<L, G>>(
                ClientTablesError::GetTableFailed { source: outcomes[at]->Err_0 },
            ),
        ) && tables_fetches(listing, outcomes) == at + 1 by {
            lemma_fetch_failure(need, Seq::<Table>::empty(), outcomes, at);
        }
        if need <= outcomes.len() && (forall|i: int|
            0 <= i < need ==> (#[trigger] outcomes[i]) is Ok) {
            lemma_fetch_all(need, Seq::<Table>::empty(), outcomes);
            assert(Seq::<Table>::empty() + Seq::new(need, |i: int| outcomes[i]->Ok_0) =~= Seq::new(
                need,
                |i: int| outcomes[i]->Ok_0,
            ));
        }
    }
}

} // verus!
