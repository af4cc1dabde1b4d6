//! Accounts: the typed account data, listing parameters, and the
//! cursor-based lookup protocol.
//!
//! A listing endpoint returns one page of accounts together with a cursor
//! and a `has_next` flag. [`find_by_id_step`] decides, from one page, whether
//! the search is over, must fetch another page, or is exhausted;
//! [`find_by_predicate`] drives those steps through a caller-supplied listing
//! call until the account is found or the pages (or the page budget) run
//! out. The network request behind each page happens outside this crate.

use vstd::prelude::*;

verus! {

use vstd::string::StrSliceExecFns;
use vstd::string::StringExecFns;
use crate::decimal::{dec_of_int, i32_to_dec};
use crate::utils::CBAdvError;

/// Represents a Balance for either Available or Held funds.
#[derive(Debug)]
pub struct Balance {
    pub value: String,
    pub currency: String,
}

/// Represents an Account received from the API.
#[derive(Debug)]
pub struct Account {
    pub uuid: String,
    pub name: String,
    pub currency: String,
    pub available_balance: Balance,
    pub default: bool,
    pub active: bool,
    pub created_at: String,
    pub updated_at: String,
    pub deleted_at: Option<String>,
    pub account_type: String,
    pub ready: bool,
    pub hold: Balance,
}

/// Represents a list of accounts received from the API: one page of a
/// listing, with the cursor to the next page and whether one exists.
#[derive(Debug)]
pub struct ListedAccounts {
    pub accounts: Vec<Account>,
    pub has_next: bool,
    pub cursor: String,
    pub size: i32,
}

/// Represents parameters that are optional for List Account API request.
#[derive(Debug)]
pub struct ListAccountsParams {
    /// Amount to obtain, default 49 maximum is 250.
    pub limit: Option<i32>,
    /// Returns accounts after the cursor provided.
    pub cursor: Option<String>,
}

impl Default for ListAccountsParams {
    fn default() -> (r: Self)
        ensures
            r.limit is None,
            r.cursor is None,
    {
        ListAccountsParams { limit: None, cursor: None }
    }
}

impl ListAccountsParams {
    /// The query string these parameters denote: the given parts in
    /// `limit`-then-`cursor` order, joined by `&`, with no leading `&`.
    pub open spec fn params_view(&self) -> Seq<char> {
        match (self.limit, self.cursor) {
            (Option::None, Option::None) => Seq::<char>::empty(),
            (Option::Some(l), Option::None) => "limit="@ + dec_of_int(l as int),
            (Option::None, Option::Some(c)) => "cursor="@ + c@,
            (Option::Some(l), Option::Some(c)) => "limit="@ + dec_of_int(l as int) + "&cursor="@
                + c@,
        }
    }

    /// Converts the object into HTTP request parameters.
    pub fn to_params(&self) -> (r: String)
        ensures
            r@ == self.params_view(),
    {
        match (&self.limit, &self.cursor) {
            (Option::None, Option::None) => String::new(),
            (Option::Some(l), Option::None) => {
                let mut s = String::from_str("limit=");
                s.append(i32_to_dec(*l).as_str());
                s
            },
            (Option::None, Option::Some(c)) => {
                let mut s = String::from_str("cursor=");
                s.append(c.as_str());
                s
            },
            (Option::Some(l), Option::Some(c)) => {
                let mut s = String::from_str("limit=");
                s.append(i32_to_dec(*l).as_str());
                s.append("&cursor=");
                s.append(c.as_str());
                s
            },
        }
    }
}

/// Whether some account in the sequence carries the given currency id.
pub open spec fn has_match(accounts: Seq<Account>, id: Seq<char>) -> bool {
    exists|i: int| 0 <= i < accounts.len() && accounts[i].currency@ == id
}

/// Compares two strings character by character.
fn str_eq(a: &str, b: &str) -> (r: bool)
    ensures
        r == (a@ == b@),
{
    let n = a.unicode_len();
    let m = b.unicode_len();
    if n != m {
        proof {
            assert(a@.len() != b@.len());
        }
        return false;
    }
    let mut i: usize = 0;
    while i < n
        invariant
            n == a@.len(),
            n == b@.len(),
            i <= n,
            forall|j: int| 0 <= j < i ==> a@[j] == b@[j],
        decreases n - i,
    {
        if a.get_char(i) != b.get_char(i) {
            proof {
                assert(a@[i as int] != b@[i as int]);
            }
            return false;
        }
        i = i + 1;
    }
    proof {
        assert(a@ =~= b@);
    }
    true
}

/// What one page of a listing decides for a search.
pub enum LookupStep {
    /// The first account on the page whose currency is the target id.
    Found(Account),
    /// No match on this page and more pages remain: the parameters for the
    /// next request, carrying the returned cursor.
    NextPage(ListAccountsParams),
    /// No match and no further page exists.
    Exhausted,
}

/// Finds the position of the first account carrying the given currency id.
fn first_match_index(accounts: &Vec<Account>, id: &str) -> (r: Option<usize>)
    ensures
        r matches Some(i) ==> 0 <= i < accounts@.len() && accounts@[i as int].currency@ == id@ && (
        forall|j: int| 0 <= j < i ==> accounts@[j].currency@ != id@),
        r is None ==> !has_match(accounts@, id@),
{
    let n = accounts.len();
    let mut i: usize = 0;
    while i < n
        invariant
            n == accounts@.len(),
            i <= n,
            forall|j: int| 0 <= j < i ==> accounts@[j].currency@ != id@,
        decreases n - i,
    {
        if str_eq(accounts[i].currency.as_str(), id) {
            return Some(i);
        }
        i = i + 1;
    }
    proof {
        assert(!has_match(accounts@, id@)) by {
            if has_match(accounts@, id@) {
                let k = choose|k: int|
                    0 <= k < accounts@.len() && accounts@[k].currency@ == id@;
                assert(accounts@[k].currency@ != id@);
            }
        }
    }
    None
}

/// Decides, from one page of a listing, the next move of a search for the
/// account with currency `id`. The first match on the page wins, in the
/// order the server returned; with no match, the search goes on exactly when
/// the page says another follows, reusing `limit` and the returned cursor.
pub fn find_by_id_step(id: &str, limit: Option<i32>, listed: ListedAccounts) -> (r: LookupStep)
    ensures
        r matches LookupStep::Found(a) ==> exists|i: int|
            0 <= i < listed.accounts@.len() && a == listed.accounts@[i] && a.currency@ == id@ && (
            forall|j: int| 0 <= j < i ==> listed.accounts@[j].currency@ != id@),
        has_match(listed.accounts@, id@) ==> r is Found,
        !has_match(listed.accounts@, id@) && listed.has_next ==> (r matches LookupStep::NextPage(
            p,
        ) && (p.limit == limit && (p.cursor matches Some(c) && c@ == listed.cursor@))),
        !has_match(listed.accounts@, id@) && !listed.has_next ==> r is Exhausted,
{
    match first_match_index(&listed.accounts, id) {
        Some(i) => {
            let mut page = listed;
            let a = page.accounts.swap_remove(i);
            proof {
                assert(has_match(listed.accounts@, id@)) by {
                    assert(listed.accounts@[i as int].currency@ == id@);
                }
            }
            LookupStep::Found(a)
        },
        None => {
            if listed.has_next {
                LookupStep::NextPage(ListAccountsParams { limit, cursor: Some(listed.cursor) })
            } else {
                LookupStep::Exhausted
            }
        },
    }
}

/// Whether `next` is the request that follows the page `prev`: it keeps the
/// limit, and it may only follow a page that announced another one, whose
/// cursor it carries.
pub open spec fn chain_next(
    prev: (ListAccountsParams, ListedAccounts),
    next: ListAccountsParams,
) -> bool {
    &&& next.limit == prev.0.limit
    &&& prev.1.has_next
    &&& next.cursor matches Some(c) && c@ == prev.1.cursor@
}

/// Whether two request–page pairs are consecutive steps of one listing walk.
pub open spec fn chain_link(
    prev: (ListAccountsParams, ListedAccounts),
    next: (ListAccountsParams, ListedAccounts),
) -> bool {
    chain_next(prev, next.0)
}

/// A possible run of matchless listing responses: the first request is
/// `first`; every page is a possible answer of `list_fn` to its request; no
/// page holds an account with currency `id`; and every later request carries
/// the cursor of the page before it.
pub open spec fn listing_chain<F: Fn(ListAccountsParams) -> Result<
    ListedAccounts,
    CBAdvError,
>>(
    list_fn: F,
    id: Seq<char>,
    first: ListAccountsParams,
    pages: Seq<(ListAccountsParams, ListedAccounts)>,
) -> bool {
    &&& pages.len() > 0
    &&& pages[0].0 == first
    &&& forall|k: int|
        0 <= k < pages.len() ==> #[trigger] call_ensures(
            list_fn,
            (pages[k].0,),
            Result::<ListedAccounts, CBAdvError>::Ok(pages[k].1),
        )
    &&& forall|k: int| 0 <= k < pages.len() ==> !(#[trigger] has_match(pages[k].1.accounts@, id))
    &&& forall|k: int| 0 <= k < pages.len() - 1 ==> chain_link(#[trigger] pages[k], pages[k + 1])
}

/// A matchless run grows by one page: appending a possible, matchless answer
/// to the run's next request yields a matchless run again.
proof fn lemma_chain_extend<F: Fn(ListAccountsParams) -> Result<ListedAccounts, CBAdvError>>(
    list_fn: F,
    id: Seq<char>,
    first: ListAccountsParams,
    seen: Seq<(ListAccountsParams, ListedAccounts)>,
    requested: ListAccountsParams,
    page: ListedAccounts,
)
    requires
        seen.len() == 0 ==> requested == first,
        seen.len() > 0 ==> listing_chain(list_fn, id, first, seen) && chain_next(
            seen.last(),
            requested,
        ),
        call_ensures(list_fn, (requested,), Result::<ListedAccounts, CBAdvError>::Ok(page)),
        !has_match(page.accounts@, id),
    ensures
        listing_chain(list_fn, id, first, seen.push((requested, page))),
{
    let s2 = seen.push((requested, page));
    assert(s2[s2.len() - 1] == (requested, page));
    if seen.len() == 0 {
        assert(s2[0] == (requested, page));
    } else {
        assert(s2[0] == seen[0]);
    }
    assert forall|k: int|
        0 <= k < s2.len() implies #[trigger] call_ensures(
        list_fn,
        (s2[k].0,),
        Result::<ListedAccounts, CBAdvError>::Ok(s2[k].1),
    ) by {
        if k < seen.len() {
            assert(s2[k] == seen[k]);
            assert(call_ensures(
                list_fn,
                (seen[k].0,),
                Result::<ListedAccounts, CBAdvError>::Ok(seen[k].1),
            ));
        } else {
            assert(s2[k] == (requested, page));
        }
    }
    assert forall|k: int| 0 <= k < s2.len() implies !(#[trigger] has_match(
        s2[k].1.accounts@,
        id,
    )) by {
        if k < seen.len() {
            assert(s2[k] == seen[k]);
            assert(!has_match(seen[k].1.accounts@, id));
        } else {
            assert(s2[k] == (requested, page));
        }
    }
    assert forall|k: int| 0 <= k < s2.len() - 1 implies chain_link(
        #[trigger] s2[k],
        s2[k + 1],
    ) by {
        assert(s2[k] == seen[k]);
        if k < seen.len() - 1 {
            assert(s2[k + 1] == seen[k + 1]);
            assert(chain_link(seen[k], seen[k + 1]));
        } else {
            assert(s2[k + 1] == (requested, page));
            assert(seen[k] == seen.last());
        }
    }
}

/// What justifies a `NotFound` answer of a search that began with the
/// request `first`: the page budget was empty, or some matchless run of at
/// most `max_pages` pages ends exhausted or spends the whole budget.
pub open spec fn search_exhausted<F: Fn(ListAccountsParams) -> Result<
    ListedAccounts,
    CBAdvError,
>>(list_fn: F, id: Seq<char>, first: ListAccountsParams, max_pages: u32) -> bool {
    max_pages == 0 || exists|pgs: Seq<(ListAccountsParams, ListedAccounts)>|
        #[trigger] listing_chain(list_fn, id, first, pgs) && pgs.len() <= max_pages && (pgs.len()
            == max_pages || !pgs.last().1.has_next)
}

/// Searches a cursor-based listing for the account whose currency is `id`:
/// one `list_fn` call per page, first match wins, `NotFound` when the pages
/// are exhausted. Each page is one further round trip, so the search is an
/// intentionally expensive convenience next to a direct lookup by UUID.
///
/// `max_pages` bounds how many pages are requested; a server that keeps
/// reporting further pages otherwise keeps the search going forever. When
/// the budget runs out the search reports `NotFound`, like an exhausted one.
///
/// The contract owes the search: a `NotFound` can only come from an empty
/// budget or from a run of matchless pages ([`listing_chain`]) that ends
/// exhausted or spends the budget; any other error is one the listing call
/// itself could have produced, returned unchanged.
#[verifier::loop_isolation(false)]
pub fn find_by_predicate<F: Fn(ListAccountsParams) -> Result<
    ListedAccounts,
    CBAdvError,
>>(list_fn: F, id: &str, params: ListAccountsParams, max_pages: u32) -> (r: Result<
    Account,
    CBAdvError,
>)
    requires
        forall|p: ListAccountsParams| #[trigger] call_requires(list_fn, (p,)),
    ensures
        r matches Ok(a) ==> a.currency@ == id@,
        r matches Ok(a) ==> exists|p: ListAccountsParams, l: ListedAccounts|
            call_ensures(list_fn, (p,), Result::<ListedAccounts, CBAdvError>::Ok(l))
                && l.accounts@.contains(a),
        max_pages == 0 ==> (r matches Err(CBAdvError::NotFound(m)) && m@ == "no matching ids"@),
        r matches Err(e) ==> ((e matches CBAdvError::NotFound(m) && m@ == "no matching ids"@
            && search_exhausted(list_fn, id@, params, max_pages)) || exists|
            p: ListAccountsParams,
        |
            call_ensures(list_fn, (p,), Result::<ListedAccounts, CBAdvError>::Err(e))),
{
    let mut cur = params;
    let ghost first = cur;
    let ghost mut seen: Seq<(ListAccountsParams, ListedAccounts)> = Seq::empty();
    let mut pages_done: u32 = 0;
    while pages_done < max_pages
        invariant
            forall|p: ListAccountsParams| #[trigger] call_requires(list_fn, (p,)),
            pages_done <= max_pages,
            seen.len() == pages_done as int,
            pages_done == 0 ==> cur == first,
            pages_done > 0 ==> listing_chain(list_fn, id@, first, seen) && chain_next(
                seen.last(),
                cur,
            ),
        decreases max_pages - pages_done,
    {
        let limit = cur.limit;
        let ghost requested = cur;
        match list_fn(cur) {
            Ok(listed) => {
                let ghost page0 = listed;
                match find_by_id_step(id, limit, listed) {
                    LookupStep::Found(a) => {
                        proof {
                            assert(call_ensures(
                                list_fn,
                                (requested,),
                                Result::<ListedAccounts, CBAdvError>::Ok(page0),
                            ) && page0.accounts@.contains(a));
                        }
                        return Ok(a);
                    },
                    LookupStep::NextPage(p) => {
                        proof {
                            assert(!has_match(page0.accounts@, id@));
                            lemma_chain_extend(list_fn, id@, first, seen, requested, page0);
                            seen = seen.push((requested, page0));
                        }
                        cur = p;
                    },
                    LookupStep::Exhausted => {
                        let msg = String::from_str("no matching ids");
                        proof {
                            assert(!has_match(page0.accounts@, id@));
                            lemma_chain_extend(list_fn, id@, first, seen, requested, page0);
                            let pgs = seen.push((requested, page0));
                            assert(listing_chain(list_fn, id@, first, pgs));
                            assert(pgs.len() <= max_pages);
                            assert(!pgs.last().1.has_next);
                            assert(search_exhausted(list_fn, id@, first, max_pages));
                            assert(msg@ == "no matching ids"@);
                        }
                        return Err(CBAdvError::NotFound(msg));
                    },
                }
            },
            Err(error) => {
                proof {
                    assert(call_ensures(
                        list_fn,
                        (requested,),
                        Result::<ListedAccounts, CBAdvError>::Err(error),
                    ));
                }
                return Err(error);
            },
        }
        pages_done = pages_done + 1;
    }
    proof {
        if max_pages > 0 {
            assert(listing_chain(list_fn, id@, first, seen));
            assert(seen.len() == max_pages as int);
        }
        assert(search_exhausted(list_fn, id@, first, max_pages));
    }
    Err(CBAdvError::NotFound(String::from_str("no matching ids")))
}

/// The resource path of the accounts listing endpoint.
pub open spec fn accounts_resource() -> Seq<char> {
    "/api/v3/brokerage/accounts"@
}

/// The resource path of a single account: the listing resource, a slash,
/// and the account's UUID.
pub open spec fn account_resource_view(account_uuid: Seq<char>) -> Seq<char> {
    accounts_resource() + "/"@ + account_uuid
}

/// Builds the resource path that addresses one account by its UUID.
pub fn account_resource(account_uuid: &str) -> (r: String)
    ensures
        r@ == account_resource_view(account_uuid@),
{
    let mut s = String::from_str("/api/v3/brokerage/accounts");
    s.append("/");
    s.append(account_uuid);
    s
}

} // verus!
