//! Screener metrics across asset classes and the paging of screener queries.

use vstd::prelude::*;
use crate::keys::QuoteType;
use crate::screeners::{
    ScreenerData, MetricTable, FieldMetadata, result_view, EquityScreener, MutualFundScreener,
    IndexScreener, EtfScreener, FutureScreener, CryptoScreener,
};
use vstd::string::StrSliceExecFns;

verus! {

/// A screener field of some asset class.
#[derive(Debug, Clone, Copy, PartialEq, Eq, Structural)]
pub enum ScreenerMetric {
    Equity(EquityScreener),
    MutualFund(MutualFundScreener),
    Index(IndexScreener),
    Etf(EtfScreener),
    Future(FutureScreener),
    Crypto(CryptoScreener),
}

impl ScreenerMetric {
    /// The field name used in screener queries.
    pub open spec fn spec_key(self) -> Seq<char> {
        match self {
            ScreenerMetric::Equity(e) => e.spec_key(),
            ScreenerMetric::MutualFund(m) => m.spec_key(),
            ScreenerMetric::Index(i) => i.spec_key(),
            ScreenerMetric::Etf(e) => e.spec_key(),
            ScreenerMetric::Future(f) => f.spec_key(),
            ScreenerMetric::Crypto(c) => c.spec_key(),
        }
    }

    /// The metadata table of the asset class this field belongs to.
    pub open spec fn spec_table(self, data: ScreenerData) -> MetricTable {
        match self {
            ScreenerMetric::Equity(_) => data.equity,
            ScreenerMetric::MutualFund(_) => data.mutualfund,
            ScreenerMetric::Index(_) => data.index,
            ScreenerMetric::Etf(_) => data.etf,
            ScreenerMetric::Future(_) => data.future,
            ScreenerMetric::Crypto(_) => data.crypto,
        }
    }

    /// The metadata of this field in `data`.
    pub open spec fn spec_metadata(self, data: ScreenerData) -> FieldMetadata {
        self.spec_table(data).spec_lookup(self.spec_key())->0
    }

    /// Whether `data` describes this field.
    pub open spec fn spec_described(self, data: ScreenerData) -> bool {
        self.spec_table(data).spec_has(self.spec_key())
    }

    /// What `validate_value` gives for `value` on this field.
    pub open spec fn spec_validate(self, value: Seq<char>) -> Result<Seq<char>, Seq<char>> {
        match self {
            ScreenerMetric::Equity(e) => e.spec_validate(value),
            ScreenerMetric::MutualFund(m) => m.spec_validate(value),
            ScreenerMetric::Index(i) => i.spec_validate(value),
            ScreenerMetric::Etf(e) => e.spec_validate(value),
            ScreenerMetric::Future(f) => f.spec_validate(value),
            ScreenerMetric::Crypto(c) => c.spec_validate(value),
        }
    }

    /// The metadata table of the asset class this field belongs to.
    pub fn metrics<'a>(&self, data: &'a ScreenerData) -> (r: &'a MetricTable)
        ensures
            *r == self.spec_table(*data),
    {
        match self {
            ScreenerMetric::Equity(_) => EquityScreener::metrics(data),
            ScreenerMetric::MutualFund(_) => MutualFundScreener::metrics(data),
            ScreenerMetric::Index(_) => IndexScreener::metrics(data),
            ScreenerMetric::Etf(_) => EtfScreener::metrics(data),
            ScreenerMetric::Future(_) => FutureScreener::metrics(data),
            ScreenerMetric::Crypto(_) => CryptoScreener::metrics(data),
        }
    }

    /// The metadata of this field; `data` must describe it.
    pub fn metadata<'a>(&self, data: &'a ScreenerData) -> (r: &'a FieldMetadata)
        requires
            self.spec_described(*data),
        ensures
            *r == self.spec_metadata(*data),
    {
        match self {
            ScreenerMetric::Equity(e) => e.metadata(data),
            ScreenerMetric::MutualFund(m) => m.metadata(data),
            ScreenerMetric::Index(i) => i.metadata(data),
            ScreenerMetric::Etf(e) => e.metadata(data),
            ScreenerMetric::Future(f) => f.metadata(data),
            ScreenerMetric::Crypto(c) => c.metadata(data),
        }
    }

    /// The display name of this field; `data` must describe it.
    pub fn name<'a>(&self, data: &'a ScreenerData) -> (r: &'a str)
        requires
            self.spec_described(*data),
        ensures
            r@ == self.spec_metadata(*data).name@,
    {
        self.metadata(data).name.as_str()
    }

    /// The description of this field; `data` must describe it.
    pub fn description<'a>(&self, data: &'a ScreenerData) -> (r: &'a str)
        requires
            self.spec_described(*data),
        ensures
            r@ == self.spec_metadata(*data).description@,
    {
        self.metadata(data).description.as_str()
    }

    /// The data type of this field; `data` must describe it.
    pub fn data_type<'a>(&self, data: &'a ScreenerData) -> (r: &'a str)
        requires
            self.spec_described(*data),
        ensures
            r@ == self.spec_metadata(*data).data_type@,
    {
        self.metadata(data).data_type.as_str()
    }

    /// The unit of this field; `data` must describe it.
    pub fn unit<'a>(&self, data: &'a ScreenerData) -> (r: &'a str)
        requires
            self.spec_described(*data),
        ensures
            r@ == self.spec_metadata(*data).unit@,
    {
        self.metadata(data).unit.as_str()
    }

    /// The field name used in screener queries.
    pub fn as_str(&self) -> (r: &'static str)
        ensures
            r@ == self.spec_key(),
    {
        match self {
            ScreenerMetric::Equity(e) => e.as_str(),
            ScreenerMetric::MutualFund(m) => m.as_str(),
            ScreenerMetric::Index(i) => i.as_str(),
            ScreenerMetric::Etf(e) => e.as_str(),
            ScreenerMetric::Future(f) => f.as_str(),
            ScreenerMetric::Crypto(c) => c.as_str(),
        }
    }

    /// Checks a value given for this field.
    pub fn validate_value(&self, value: &str) -> (r: Result<String, String>)
        ensures
            result_view(r) == self.spec_validate(value@),
    {
        match self {
            ScreenerMetric::Equity(e) => e.validate_value(value),
            ScreenerMetric::MutualFund(m) => m.validate_value(value),
            ScreenerMetric::Index(i) => i.validate_value(value),
            ScreenerMetric::Etf(e) => e.validate_value(value),
            ScreenerMetric::Future(f) => f.validate_value(value),
            ScreenerMetric::Crypto(c) => c.validate_value(value),
        }
    }
}

/// The field a query of this quote type is sorted on when none is given.
pub open spec fn spec_default_sort_field(quote_type: QuoteType) -> Seq<char> {
    match quote_type {
        QuoteType::Equity => "intradaymarketcap"@,
        QuoteType::MutualFund => "fundnetassets"@,
        QuoteType::Index => "percentchange"@,
        QuoteType::Etf => "fundnetassets"@,
        QuoteType::Future => "percentchange"@,
        QuoteType::Crypto => "intradaymarketcap"@,
    }
}

/// The field a query of this quote type is sorted on when none is given.
pub fn default_sort_field(quote_type: QuoteType) -> (r: &'static str)
    ensures
        r@ == spec_default_sort_field(quote_type),
{
    match quote_type {
        QuoteType::Equity => "intradaymarketcap",
        QuoteType::MutualFund => "fundnetassets",
        QuoteType::Index => "percentchange",
        QuoteType::Etf => "fundnetassets",
        QuoteType::Future => "percentchange",
        QuoteType::Crypto => "intradaymarketcap",
    }
}

/// The field a query is sorted on: the chosen metric, or the default of its quote type.
pub fn sort_field(sort: Option<ScreenerMetric>, quote_type: QuoteType) -> (r: &'static str)
    ensures
        r@ == match sort {
            Some(m) => m.spec_key(),
            None => spec_default_sort_field(quote_type),
        },
{
    match sort {
        Some(m) => m.as_str(),
        None => default_sort_field(quote_type),
    }
}

/// The sort direction word of a query.
pub fn sort_type(descending: bool) -> (r: &'static str)
    ensures
        r@ == (if descending { "DESC"@ } else { "ASC"@ }),
{
    if descending {
        "DESC"
    } else {
        "ASC"
    }
}

/// The comparison a screener filter makes on a field.
#[derive(Debug, Clone, Copy, PartialEq, Eq, Structural)]
pub enum FilterOperator {
    Eq,
    Gte,
    Lte,
    Gt,
    Lt,
    /// Between two bounds.
    Btwn,
}

impl FilterOperator {
    /// The operator's word in a screener query.
    pub open spec fn spec_word(self) -> Seq<char> {
        match self {
            FilterOperator::Eq => "eq"@,
            FilterOperator::Gte => "gte"@,
            FilterOperator::Lte => "lte"@,
            FilterOperator::Gt => "gt"@,
            FilterOperator::Lt => "lt"@,
            FilterOperator::Btwn => "BTWN"@,
        }
    }

    /// The operator's word in a screener query.
    pub fn as_str(&self) -> (r: &'static str)
        ensures
            r@ == self.spec_word(),
    {
        match self {
            FilterOperator::Eq => "eq",
            FilterOperator::Gte => "gte",
            FilterOperator::Lte => "lte",
            FilterOperator::Gt => "gt",
            FilterOperator::Lt => "lt",
            FilterOperator::Btwn => "BTWN",
        }
    }
}

/// The largest number of rows one screener request asks for.
pub const MAX_PAGE_SIZE: usize = 250;

/// The paging of a screener query: which rows to ask for next, and when to
/// stop.  A query for `size` rows from `offset` is sent in pages of at most
/// [`MAX_PAGE_SIZE`] rows; it stops when the rows asked for have come, when a
/// page comes back empty, or when a page comes back shorter than asked.
pub struct ScreenerPager {
    pub offset: usize,
    pub remaining: usize,
    pub finished: bool,
    /// The number of rows the query was for.
    pub size: Ghost<nat>,
    /// The offset the query started from.
    pub start: Ghost<nat>,
    /// The rows asked for so far, over all pages.
    pub requested: Ghost<nat>,
    /// The rows received so far, over all pages.
    pub retrieved: Ghost<nat>,
}

/// The smaller of two numbers.
pub open spec fn min_nat(a: nat, b: nat) -> nat {
    if a <= b { a } else { b }
}

impl ScreenerPager {
    /// The pager's bookkeeping holds together: the next offset follows the rows
    /// received, the rows still wanted follow the rows received, and the rows
    /// asked for never exceed the query's size.
    pub open spec fn wf(self) -> bool {
        &&& self.offset == self.start@ + self.retrieved@
        &&& self.remaining == if self.retrieved@ >= self.size@ { 0 } else { (self.size@ - self.retrieved@) as nat }
        &&& self.requested@ <= self.size@
        &&& !self.finished ==> self.requested@ <= self.retrieved@
    }

    /// The rows the next page asks for.
    pub open spec fn spec_chunk(self) -> nat {
        min_nat(self.remaining as nat, MAX_PAGE_SIZE as nat)
    }

    /// A pager for a query of `size` rows from `offset`.
    pub fn new(offset: usize, size: usize) -> (p: ScreenerPager)
        ensures
            p.wf(),
            p.offset == offset,
            p.remaining == size,
            !p.finished,
            p.size@ == size,
            p.requested@ == 0,
            p.retrieved@ == 0,
    {
        ScreenerPager {
            offset,
            remaining: size,
            finished: false,
            size: Ghost(size as nat),
            start: Ghost(offset as nat),
            requested: Ghost(0),
            retrieved: Ghost(0),
        }
    }

    /// The next page to ask for, as offset and row count; `None` once the query is done.
    pub fn next_request(&self) -> (r: Option<(usize, usize)>)
        ensures
            r == if self.finished || self.remaining == 0 {
                None
            } else {
                Some((self.offset, self.spec_chunk() as usize))
            },
            r matches Some((_, n)) ==> 1 <= n <= MAX_PAGE_SIZE && n <= self.remaining,
    {
        if self.finished || self.remaining == 0 {
            None
        } else if self.remaining < MAX_PAGE_SIZE {
            Some((self.offset, self.remaining))
        } else {
            Some((self.offset, MAX_PAGE_SIZE))
        }
    }

    /// Records that the page asked for by `next_request` came back with `rows` rows.
    pub fn record_page(&mut self, rows: usize)
        requires
            old(self).wf(),
            !old(self).finished,
            old(self).remaining > 0,
            old(self).offset + rows <= usize::MAX,
        ensures
            final(self).wf(),
            final(self).offset == old(self).offset + rows,
            final(self).remaining == if rows >= old(self).remaining { 0 } else { (old(self).remaining - rows) as nat },
            final(self).finished == (rows < old(self).spec_chunk()),
            final(self).requested@ == old(self).requested@ + old(self).spec_chunk(),
            final(self).retrieved@ == old(self).retrieved@ + rows,
            final(self).size == old(self).size,
            final(self).start == old(self).start,
    {
        let chunk = if self.remaining < MAX_PAGE_SIZE { self.remaining } else { MAX_PAGE_SIZE };
        self.offset = self.offset + rows;
        self.remaining = if rows >= self.remaining { 0 } else { self.remaining - rows };
        self.finished = rows < chunk;
        self.requested = Ghost(self.requested@ + chunk as nat);
        self.retrieved = Ghost(self.retrieved@ + rows as nat);
    }
}

/// A symbol as the screener returns it, without the double quotes around it:
/// the part of `s` between its leading and its trailing double quotes.
pub open spec fn spec_trim_quotes(s: Seq<char>, i: int, j: int) -> bool {
    &&& 0 <= i <= j <= s.len()
    &&& forall|k: int| 0 <= k < i ==> s[k] == '"'
    &&& forall|k: int| j <= k < s.len() ==> s[k] == '"'
    &&& i < j ==> s[i] != '"' && s[j - 1] != '"'
}

/// Removes the double quotes at both ends of `s`.
pub fn trim_quotes(s: &str) -> (r: String)
    ensures
        exists|i: int, j: int| spec_trim_quotes(s@, i, j) && r@ == s@.subrange(i, j),
{
    let n = s.unicode_len();
    let mut i: usize = 0;
    while i < n && s.get_char(i) == '"'
        invariant
            n == s@.len(),
            0 <= i <= n,
            forall|k: int| 0 <= k < i ==> s@[k] == '"',
        decreases n - i,
    {
        i = i + 1;
    }
    let mut j: usize = n;
    while j > i && s.get_char(j - 1) == '"'
        invariant
            n == s@.len(),
            0 <= i <= j <= n,
            forall|k: int| j <= k < n ==> s@[k] == '"',
        decreases j,
    {
        j = j - 1;
    }
    let r = s.substring_char(i, j);
    assert(spec_trim_quotes(s@, i as int, j as int));
    String::from_str(r)
}

/// A query without a sort field is sorted on a field of its own asset class:
/// equities and cryptocurrencies on intraday market capitalisation, mutual
/// funds and ETFs on fund net assets, indices and futures on percent change.
pub proof fn lemma_default_sort_fields(quote_type: QuoteType)
    ensures
        quote_type == QuoteType::Equity
            ==> spec_default_sort_field(quote_type) == EquityScreener::MarketCapIntraday.spec_key(),
        quote_type == QuoteType::Crypto
            ==> spec_default_sort_field(quote_type) == CryptoScreener::MarketCapIntraday.spec_key(),
        quote_type == QuoteType::MutualFund
            ==> spec_default_sort_field(quote_type) == MutualFundScreener::FundNetAssets.spec_key(),
        quote_type == QuoteType::Etf
            ==> spec_default_sort_field(quote_type) == EtfScreener::FundNetAssets.spec_key(),
        quote_type == QuoteType::Index
            ==> spec_default_sort_field(quote_type) == IndexScreener::PercentChange.spec_key(),
        quote_type == QuoteType::Future
            ==> spec_default_sort_field(quote_type) == FutureScreener::PercentChange.spec_key(),
{
}

/// A query is sent in pages of 250 rows, the last page holding what is left:
/// each page asks for the rows still wanted, but never more than 250.
pub proof fn lemma_page_size(p: ScreenerPager)
    ensures
        p.spec_chunk() == if p.remaining < 250 { p.remaining as nat } else { 250 },
        p.remaining > 0 ==> 1 <= p.spec_chunk() <= 250,
{
}

} // verus!
