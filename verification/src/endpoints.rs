//! Typed query builders, one per declared endpoint.
//!
//! An endpoint has a fixed, documented parameter vocabulary; its typed
//! builder exposes one setter per parameter and nothing else, so a query can
//! only ever carry declared parameters. An unset slot is omitted from the
//! request, never sent as an empty value.

use crate::client::Tushare;
use crate::error::TushareError;
use crate::params::spec_get;
use crate::params::ParamMap;
use crate::query::QueryBuilder;
use crate::query::Transport;
use crate::table::Table;
use vstd::prelude::*;

verus! {

/// The view of an optional parameter slot.
pub open spec fn slot_view(s: Option<&str>) -> Option<Seq<char>> {
    match s {
        Some(t) => Some(t@),
        None => None,
    }
}

/// The mapping a `stock_basic` builder converts to, as a lookup: each
/// declared parameter's key carries that slot's value, every other key is
/// absent.
pub open spec fn stock_basic_lookup(
    ts_code: Option<Seq<char>>,
    list_status: Option<Seq<char>>,
    k: Seq<char>,
) -> Option<Seq<char>> {
    if k == "ts_code"@ {
        ts_code
    } else if k == "list_status"@ {
        list_status
    } else {
        None
    }
}

/// The exact entry sequence a `stock_basic` builder converts to: the set
/// slots in declaration order, the unset ones omitted.
pub open spec fn stock_basic_pairs(
    ts_code: Option<Seq<char>>,
    list_status: Option<Seq<char>>,
) -> Seq<(Seq<char>, Seq<char>)> {
    (match ts_code {
        Some(v) => seq![("ts_code"@, v)],
        None => Seq::empty(),
    }) + (match list_status {
        Some(v) => seq![("list_status"@, v)],
        None => Seq::empty(),
    })
}

/// Typed query builder for the `stock_basic` endpoint.
///
/// See <https://tushare.pro/document/2?doc_id=25> for the endpoint's
/// documentation.
pub struct StockBasicQueryBuilder<'a> {
    tushare: &'a Tushare,
    ts_code: Option<&'a str>,
    list_status: Option<&'a str>,
}

impl<'a> StockBasicQueryBuilder<'a> {
    /// The client the builder is bound to.
    pub closed spec fn spec_client(self) -> Tushare {
        *self.tushare
    }

    /// The `ts_code` slot.
    pub closed spec fn spec_ts_code(self) -> Option<Seq<char>> {
        slot_view(self.ts_code)
    }

    /// The `list_status` slot.
    pub closed spec fn spec_list_status(self) -> Option<Seq<char>> {
        slot_view(self.list_status)
    }

    /// A fresh builder: every parameter slot unset.
    pub fn new(tushare: &'a Tushare) -> (r: Self)
        ensures
            r.spec_client() == *tushare,
            r.spec_ts_code() is None,
            r.spec_list_status() is None,
    {
        StockBasicQueryBuilder { tushare, ts_code: None, list_status: None }
    }

    /// Sets the `ts_code` parameter; a later value replaces an earlier one.
    pub fn ts_code(self, ts_code: &'a str) -> (r: Self)
        ensures
            r.spec_ts_code() == Some(ts_code@),
            r.spec_list_status() == self.spec_list_status(),
            r.spec_client() == self.spec_client(),
    {
        StockBasicQueryBuilder { ts_code: Some(ts_code), ..self }
    }

    /// Sets the `list_status` parameter; a later value replaces an earlier
    /// one.
    pub fn list_status(self, list_status: &'a str) -> (r: Self)
        ensures
            r.spec_list_status() == Some(list_status@),
            r.spec_ts_code() == self.spec_ts_code(),
            r.spec_client() == self.spec_client(),
    {
        StockBasicQueryBuilder { list_status: Some(list_status), ..self }
    }

    /// Consumes the typed builder into a generic [`QueryBuilder`] scoped to
    /// `stock_basic`: every set slot becomes one parameter entry under its
    /// own name, every unset slot is omitted.
    pub fn into_query_builder(self) -> (r: QueryBuilder<'a>)
        ensures
            *r.tushare == self.spec_client(),
            r.api_name@ == "stock_basic"@,
            r.params.wf(),
            r.params.pairs() == stock_basic_pairs(self.spec_ts_code(), self.spec_list_status()),
            forall|k: Seq<char>|
                #[trigger] spec_get(r.params.pairs(), k) == stock_basic_lookup(
                    self.spec_ts_code(),
                    self.spec_list_status(),
                    k,
                ),
    {
        proof {
            reveal_strlit("ts_code");
            reveal_strlit("list_status");
            assert(("ts_code"@).len() == 7);
            assert(("list_status"@).len() == 11);
            assert("ts_code"@ != "list_status"@);
        }
        let mut dict = ParamMap::new();
        proof {
            assert(dict.pairs() =~= Seq::<(Seq<char>, Seq<char>)>::empty());
        }
        if let Some(v) = self.ts_code {
            dict.insert("ts_code", v);
        }
        if let Some(v) = self.list_status {
            dict.insert("list_status", v);
        }
        proof {
            assert(dict.pairs() =~= stock_basic_pairs(
                self.spec_ts_code(),
                self.spec_list_status(),
            ));
        }
        QueryBuilder::new(self.tushare, "stock_basic").params(dict)
    }

    /// Runs the query directly: converts the builder and executes it through
    /// the transport.
    pub fn query<T: Transport>(self, transport: &mut T) -> (r: Result<Table, TushareError>)
        ensures
            (match r {
                Ok(t) => t@.wf(),
                Err(_) => true,
            }),
    {
        self.into_query_builder().query(transport)
    }
}

impl Tushare {
    /// A typed builder for the `stock_basic` endpoint, bound to this client.
    pub fn stock_basic<'a>(&'a self) -> (r: StockBasicQueryBuilder<'a>)
        ensures
            r.spec_client() == *self,
            r.spec_ts_code() is None,
            r.spec_list_status() is None,
    {
        StockBasicQueryBuilder::new(self)
    }
}

/// Law: for every subset of the declared vocabulary that is set, the
/// converted mapping's key set is exactly that subset — no extra keys, no
/// missing keys.
pub proof fn lemma_stock_basic_key_set(
    p: ParamMap,
    ts_code: Option<Seq<char>>,
    list_status: Option<Seq<char>>,
)
    requires
        forall|k: Seq<char>|
            #[trigger] spec_get(p.pairs(), k) == stock_basic_lookup(ts_code, list_status, k),
    ensures
        p.as_map().dom() =~= (if ts_code is Some {
            set!["ts_code"@]
        } else {
            Set::empty()
        }).union(
            if list_status is Some {
                set!["list_status"@]
            } else {
                Set::empty()
            },
        ),
{
    reveal_strlit("ts_code");
    reveal_strlit("list_status");
    assert(("ts_code"@).len() == 7);
    assert(("list_status"@).len() == 11);
    assert("ts_code"@ != "list_status"@);
}

/// Law: setting the same parameter twice keeps only the later value — a
/// builder whose slot was set twice converts exactly as one set once to the
/// later value, and no other slot moves.
pub proof fn lemma_last_write_wins<'a>(
    b0: StockBasicQueryBuilder<'a>,
    b1: StockBasicQueryBuilder<'a>,
    b2: StockBasicQueryBuilder<'a>,
    v1: Seq<char>,
    v2: Seq<char>,
)
    requires
        b1.spec_ts_code() == Some(v1),
        b1.spec_list_status() == b0.spec_list_status(),
        b2.spec_ts_code() == Some(v2),
        b2.spec_list_status() == b1.spec_list_status(),
    ensures
        b2.spec_ts_code() == Some(v2),
        b2.spec_list_status() == b0.spec_list_status(),
        forall|k: Seq<char>|
            stock_basic_lookup(b2.spec_ts_code(), b2.spec_list_status(), k) == stock_basic_lookup(
                Some(v2),
                b0.spec_list_status(),
                k,
            ),
{
}

/// Law: builder values are independent: what a builder converts to is a
/// function of its own slots alone, so no builder can observe or disturb
/// another's state.
pub proof fn lemma_builder_independence<'a, 'b>(
    a: StockBasicQueryBuilder<'a>,
    b: StockBasicQueryBuilder<'b>,
)
    requires
        a.spec_ts_code() == b.spec_ts_code(),
        a.spec_list_status() == b.spec_list_status(),
    ensures
        forall|k: Seq<char>|
            stock_basic_lookup(a.spec_ts_code(), a.spec_list_status(), k) == stock_basic_lookup(
                b.spec_ts_code(),
                b.spec_list_status(),
                k,
            ),
{
}

} // verus!
