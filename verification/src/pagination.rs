//! Draining a listing that comes in pages, each page naming the next by a
//! cursor.
//!
//! A drain asks for the first page without a cursor, appends what each page
//! holds in the order it came, follows the cursors, and ends with the first
//! page that names no successor. A page that fails ends the drain with that
//! failure; what earlier pages held is dropped, never returned beside it.

use vstd::prelude::*;

verus! {

/// The cursor of the page that follows.
#[derive(Clone, Debug, PartialEq, Eq)]
pub struct NextPageToken(pub String);

/// The address of the page that follows.
#[derive(Clone, Debug, PartialEq, Eq)]
pub struct NextPageLink(pub String);

/// The token with which to ask, later, for what changed since.
#[derive(Clone, Debug, PartialEq, Eq)]
pub struct NextSyncToken(pub String);

impl View for NextPageToken {
    type V = Seq<char>;

    open spec fn view(&self) -> Seq<char> {
        self.0@
    }
}

/// One page of a listing: items, and maybe the cursor of the next page.
///
/// An implementation says what the page holds, `page_items` and
/// `page_cursor`, and proves its three methods against that.
pub trait PaginatedResponse<T>: Sized {
    /// The items of the page, in order.
    spec fn page_items(&self) -> Seq<T>;

    /// The cursor of the next page; `None` on the last page.
    spec fn page_cursor(&self) -> Option<Seq<char>>;

    /// The items of the page.
    fn items(&self) -> (r: &Vec<T>)
        ensures
            r@ == self.page_items(),
    ;

    /// The cursor of the next page, if there is one.
    fn next_page_token(&self) -> (r: Option<&NextPageToken>)
        ensures
            match r {
                Some(token) => self.page_cursor() == Some(token@),
                None => self.page_cursor() is None,
            },
    ;

    /// The items of the page, by value.
    fn into_items(self) -> (r: Vec<T>)
        ensures
            r@ == self.page_items(),
    ;
}

/// A page of any listing.
#[derive(Clone, Debug)]
pub struct ItemsList<T> {
    pub href: Option<String>,
    pub items: Vec<T>,
    pub next_page_link: Option<NextPageLink>,
    pub next_page_token: Option<NextPageToken>,
    pub next_sync_token: Option<NextSyncToken>,
}

impl<T> PaginatedResponse<T> for ItemsList<T> {
    open spec fn page_items(&self) -> Seq<T> {
        self.items@
    }

    open spec fn page_cursor(&self) -> Option<Seq<char>> {
        match self.next_page_token {
            Some(token) => Some(token@),
            None => None,
        }
    }

    fn items(&self) -> (r: &Vec<T>) {
        &self.items
    }

    fn next_page_token(&self) -> (r: Option<&NextPageToken>) {
        self.next_page_token.as_ref()
    }

    fn into_items(self) -> (r: Vec<T>) {
        self.items
    }
}

/// Where a drain stands between two pages: the cursor to ask with next.
pub struct PaginationState {
    pub next_page_token: Option<String>,
}

impl PaginationState {
    /// The cursor to ask with next, as characters.
    pub open spec fn cursor(&self) -> Option<Seq<char>> {
        match self.next_page_token {
            Some(token) => Some(token@),
            None => None,
        }
    }

    /// The state before the first page: no cursor.
    pub fn new() -> (r: Self)
        ensures
            r.next_page_token is None,
    {
        Self { next_page_token: None }
    }

    /// Takes over the cursor that `response` names, or none.
    pub fn update_from_response<T, R: PaginatedResponse<T>>(&mut self, response: &R)
        ensures
            final(self).cursor() == response.page_cursor(),
    {
        self.next_page_token = match response.next_page_token() {
            Some(token) => Some(token.0.clone()),
            None => None,
        };
    }

    /// Whether there is a cursor to ask with.
    pub fn has_more_pages(&self) -> (r: bool)
        ensures
            r == self.next_page_token is Some,
    {
        self.next_page_token.is_some()
    }

    /// The cursor to ask with next.
    pub fn page_token(&self) -> (r: Option<&str>)
        ensures
            match r {
                Some(token) => self.cursor() == Some(token@),
                None => self.cursor() is None,
            },
    {
        match &self.next_page_token {
            Some(token) => Some(token.as_str()),
            None => None,
        }
    }
}

impl Default for PaginationState {
    fn default() -> (r: Self)
        ensures
            r.next_page_token is None,
    {
        Self::new()
    }
}

/// How one fetch ended, as a drain sees it.
pub enum PageOutcome<T, E> {
    /// A page came: its items, and the cursor of the next page if it named one.
    Page { items: Seq<T>, next: Option<Seq<char>> },
    /// The fetch failed.
    Failure { error: E },
}

/// How a fetch that returned `outcome` ended.
pub open spec fn outcome_of<T, R: PaginatedResponse<T>, E>(outcome: Result<R, E>) -> PageOutcome<
    T,
    E,
> {
    match outcome {
        Ok(page) => PageOutcome::Page { items: page.page_items(), next: page.page_cursor() },
        Err(error) => PageOutcome::Failure { error },
    }
}

/// How the fetches that returned `outcomes` ended, one by one.
pub open spec fn script_of<T, R: PaginatedResponse<T>, E>(outcomes: Seq<Result<R, E>>) -> Seq<
    PageOutcome<T, E>,
> {
    outcomes.map_values(|outcome: Result<R, E>| outcome_of(outcome))
}

/// What a drain comes to when its fetches end as `script` says, one after
/// the other: all items in order, or the first failure; `None` where the
/// script ends before the drain does.
pub open spec fn drain_result<T, E>(script: Seq<PageOutcome<T, E>>) -> Option<Result<Seq<T>, E>>
    decreases script.len(),
{
    if script.len() == 0 {
        None
    } else {
        match script[0] {
            PageOutcome::Failure { error } => Some(Err(error)),
            PageOutcome::Page { items, next } => if next is None {
                Some(Ok(items))
            } else {
                match drain_result(script.drop_first()) {
                    Some(Ok(rest)) => Some(Ok(items + rest)),
                    other => other,
                }
            },
        }
    }
}

/// How many fetches the drain of `script` makes before it ends or the script
/// does.
pub open spec fn fetches<T, E>(script: Seq<PageOutcome<T, E>>) -> nat
    decreases script.len(),
{
    if script.len() == 0 {
        0
    } else {
        match script[0] {
            PageOutcome::Page { next: Some(_), .. } => 1 + fetches(script.drop_first()),
            _ => 1,
        }
    }
}

/// The items that the fetch which ended as `outcome` brought.
pub open spec fn items_of<T, E>(outcome: PageOutcome<T, E>) -> Seq<T> {
    match outcome {
        PageOutcome::Page { items, .. } => items,
        PageOutcome::Failure { .. } => Seq::empty(),
    }
}

/// The items of all pages of `script`, in the order of the pages and, within
/// a page, in the order of the page.
pub open spec fn all_items<T, E>(script: Seq<PageOutcome<T, E>>) -> Seq<T>
    decreases script.len(),
{
    if script.len() == 0 {
        Seq::empty()
    } else {
        items_of(script[0]) + all_items(script.drop_first())
    }
}

/// Whether `script` is a complete listing: pages only, each but the last
/// naming a successor, the last naming none.
pub open spec fn is_complete_listing<T, E>(script: Seq<PageOutcome<T, E>>) -> bool {
    &&& script.len() > 0
    &&& forall|i: int|
        0 <= i < script.len() ==> (#[trigger] script[i] matches PageOutcome::Page { next, .. }
            && (next is None <==> i == script.len() - 1))
}

/// A drain in progress: what the pages so far held, and where to go on.
pub struct Drain<T> {
    items: Vec<T>,
    state: PaginationState,
}

/// What a drain does after a fetch.
pub enum DrainStep<T, E> {
    /// Fetch again, with the cursor of the drain given here.
    Continue(Drain<T>),
    /// The listing is drained: these are its items.
    Done(Vec<T>),
    /// The fetch failed; the drain ends with its error and nothing else.
    Failed(E),
}

impl<T> Drain<T> {
    /// The items gathered so far.
    pub closed spec fn gathered(&self) -> Seq<T> {
        self.items@
    }

    /// The cursor to fetch with next.
    pub closed spec fn cursor(&self) -> Option<Seq<char>> {
        self.state.cursor()
    }

    /// A drain that has fetched nothing yet: no items, no cursor.
    pub fn new() -> (r: Self)
        ensures
            r.gathered() == Seq::<T>::empty(),
            r.cursor() is None,
    {
        Drain { items: Vec::new(), state: PaginationState::new() }
    }

    /// The cursor to fetch with next; `None` asks for the first page.
    pub fn page_token(&self) -> (r: Option<&str>)
        ensures
            match r {
                Some(token) => self.cursor() == Some(token@),
                None => self.cursor() is None,
            },
    {
        self.state.page_token()
    }

    /// Takes in the outcome of the fetch that was made with `page_token`.
    ///
    /// A page is appended to what was gathered; with a cursor the drain goes
    /// on from there, without one it is done. A failure ends the drain and
    /// drops what was gathered.
    pub fn accept<R: PaginatedResponse<T>, E>(self, outcome: Result<R, E>) -> (step: DrainStep<
        T,
        E,
    >)
        ensures
            match outcome_of(outcome) {
                PageOutcome::Failure { error } => step == DrainStep::<T, E>::Failed(error),
                PageOutcome::Page { items, next: None } => step matches DrainStep::Done(all)
                    && all@ == self.gathered() + items,
                PageOutcome::Page { items, next: Some(token) } => step matches DrainStep::Continue(
                    drain,
                ) && drain.gathered() == self.gathered() + items && drain.cursor() == Some(token),
            },
    {
        let mut drain = self;
        match outcome {
            Err(error) => DrainStep::Failed(error),
            Ok(page) => {
                drain.state.update_from_response(&page);
                let mut items = page.into_items();
                drain.items.append(&mut items);
                if drain.state.has_more_pages() {
                    DrainStep::Continue(drain)
                } else {
                    DrainStep::Done(drain.items)
                }
            },
        }
    }
}

/// What was drained from recorded fetches, and how many of them it took.
pub struct Drained<T, E> {
    /// All items in order, or the failure that ended the drain; `None` where
    /// the record ended before the drain did.
    pub result: Option<Result<Vec<T>, E>>,
    /// How many recorded fetches the drain made.
    pub fetched: usize,
}

/// Drains a listing whose fetches have been recorded: the first fetch gets
/// the first outcome, the next fetch the next one, until the drain ends.
/// Outcomes after that are not looked at.
pub fn drain_recorded<T, R: PaginatedResponse<T>, E>(outcomes: Vec<Result<R, E>>) -> (r: Drained<
    T,
    E,
>)
    ensures
        match drain_result(script_of(outcomes@)) {
            None => r.result is None,
            Some(Ok(items)) => r.result matches Some(Ok(all)) && all@ == items,
            Some(Err(error)) => r.result == Some(Err::<Vec<T>, E>(error)),
        },
        r.fetched == fetches(script_of(outcomes@)),
{
    let ghost script = script_of(outcomes@);
    let mut drain: Drain<T> = Drain::new();
    let mut fetched: usize = 0;
    proof {
        assert(outcomes@.len() == outcomes.len());
        assert(script.skip(0) =~= script);
        assert(forall|rest: Seq<T>| Seq::<T>::empty() + rest =~= rest);
    }
    for outcome in it: outcomes
        invariant
            it.seq() == outcomes@,
            outcomes@.len() <= usize::MAX,
            script == script_of(outcomes@),
            fetched == it.index(),
            fetches(script) == fetched + fetches(script.skip(fetched as int)),
            match drain_result::<T, E>(script.skip(fetched as int)) {
                None => drain_result::<T, E>(script) is None,
                Some(Ok(rest)) => drain_result::<T, E>(script) == Some(
                    Ok::<Seq<T>, E>(drain.gathered() + rest),
                ),
                Some(Err(error)) => drain_result::<T, E>(script) == Some(Err::<Seq<T>, E>(error)),
            },
    {
        proof {
            let rest = script.skip(fetched as int);
            assert(rest[0] == outcome_of::<T, R, E>(outcome));
            assert(rest.drop_first() =~= script.skip(fetched + 1));
            assert(forall|a: Seq<T>, b: Seq<T>, c: Seq<T>| (a + b) + c =~= a + (b + c));
        }
        fetched += 1;
        match drain.accept(outcome) {
            DrainStep::Continue(next) => {
                drain = next;
            },
            DrainStep::Done(all) => {
                return Drained { result: Some(Ok(all)), fetched };
            },
            DrainStep::Failed(error) => {
                return Drained { result: Some(Err(error)), fetched };
            },
        }
    }
    proof {
        assert(script.skip(fetched as int).len() == 0);
    }
    Drained { result: None, fetched }
}

/// Pages that all name a successor, followed by a page that names none, are
/// drained in as many fetches as there are pages, into the items of all the
/// pages, in order.
pub proof fn lemma_drain_complete_listing<T, E>(script: Seq<PageOutcome<T, E>>)
    requires
        is_complete_listing(script),
    ensures
        drain_result(script) == Some(Ok::<Seq<T>, E>(all_items(script))),
        fetches(script) == script.len(),
    decreases script.len(),
{
    let rest = script.drop_first();
    assert(script[0] is Page);
    if script.len() == 1 {
        assert(all_items(rest) =~= Seq::<T>::empty());
        assert(items_of(script[0]) + Seq::<T>::empty() =~= items_of(script[0]));
    } else {
        assert forall|i: int| 0 <= i < rest.len() implies (#[trigger] rest[i] matches PageOutcome::Page {
            next,
            ..
        } && (next is None <==> i == rest.len() - 1)) by {
            assert(rest[i] == script[i + 1]);
        }
        lemma_drain_complete_listing(rest);
    }
}

/// Where every page holds `k` items, the items of `n` pages are `n * k`
/// items, and the `j`-th item of the `i`-th page is the item at `i * k + j`:
/// nothing is dropped, doubled or moved.
pub proof fn lemma_items_in_order<T, E>(script: Seq<PageOutcome<T, E>>, k: nat, i: int, j: int)
    requires
        forall|p: int| 0 <= p < script.len() ==> items_of(#[trigger] script[p]).len() == k,
        0 <= i < script.len(),
        0 <= j < k,
    ensures
        all_items(script).len() == script.len() * k,
        0 <= i * k + j < script.len() * k,
        all_items(script)[i * k + j] == items_of(script[i])[j],
    decreases script.len(),
{
    lemma_items_count(script, k);
    let rest = script.drop_first();
    assert(forall|p: int| 0 <= p < rest.len() ==> #[trigger] rest[p] == script[p + 1]);
    lemma_items_count(rest, k);
    if i == 0 {
        assert(i * k + j == j) by (nonlinear_arith)
            requires
                i == 0,
        ;
        assert(script.len() * k >= k) by (nonlinear_arith)
            requires
                script.len() >= 1,
        ;
    } else {
        lemma_items_in_order(rest, k, i - 1, j);
        assert(i * k + j == k + ((i - 1) * k + j)) by (nonlinear_arith);
        assert(script.len() * k == k + rest.len() * k) by (nonlinear_arith)
            requires
                script.len() == rest.len() + 1,
        ;
        assert(rest[i - 1] == script[i]);
    }
}

/// Where every page holds `k` items, `n` pages hold `n * k` of them.
pub proof fn lemma_items_count<T, E>(script: Seq<PageOutcome<T, E>>, k: nat)
    requires
        forall|p: int| 0 <= p < script.len() ==> items_of(#[trigger] script[p]).len() == k,
    ensures
        all_items(script).len() == script.len() * k,
    decreases script.len(),
{
    if script.len() > 0 {
        let rest = script.drop_first();
        assert(forall|p: int| 0 <= p < rest.len() ==> #[trigger] rest[p] == script[p + 1]);
        lemma_items_count(rest, k);
        assert(script.len() * k == k + rest.len() * k) by (nonlinear_arith)
            requires
                script.len() == rest.len() + 1,
        ;
    } else {
        assert(script.len() * k == 0) by (nonlinear_arith)
            requires
                script.len() == 0,
        ;
    }
}

/// A fetch that fails after `n` pages that each named a successor ends the
/// drain with its error, in `n + 1` fetches: no fetch follows the failure,
/// and nothing that the pages held is returned. With `n == 0` the first fetch
/// fails and is the only one.
pub proof fn lemma_drain_failure<T, E>(script: Seq<PageOutcome<T, E>>, n: int, error: E)
    requires
        0 <= n < script.len(),
        script[n] == (PageOutcome::<T, E>::Failure { error }),
        forall|i: int|
            0 <= i < n ==> (#[trigger] script[i] matches PageOutcome::Page { next, .. }
                && next is Some),
    ensures
        drain_result(script) == Some(Err::<Seq<T>, E>(error)),
        fetches(script) == n + 1,
    decreases n,
{
    if n > 0 {
        let rest = script.drop_first();
        assert(script[0] is Page);
        assert(forall|i: int| 0 <= i < rest.len() ==> #[trigger] rest[i] == script[i + 1]);
        lemma_drain_failure(rest, n - 1, error);
    }
}

} // verus!
