//! Tradable assets and option contracts: the snapshots the API returns
//! and the query builders that fetch them.

use crate::strutil::opt_field;
use crate::strutil::push_opt;
use crate::strutil::spec_join;
use crate::strutil::push_join;
use crate::strutil::to_owned_vec;
use crate::trading::AccountType;
use vstd::prelude::*;
use vstd::string::StringExecFns;

verus! {

/// One tradable asset.
#[derive(Debug, Clone)]
pub struct Asset {
    pub id: String,
    pub class: String,
    pub exchange: String,
    pub symbol: String,
    pub name: String,
    pub status: String,
    pub tradable: bool,
    pub marginable: bool,
    pub shortable: bool,
    pub easy_to_borrow: bool,
    pub fractionable: bool,
    pub margin_requirement_long: Option<String>,
    pub margin_requirement_short: Option<String>,
    pub attributes: Option<Vec<String>>,
}

/// Query for the asset list, or for one asset by id or symbol.
pub struct AssetsQuery {
    pub url: String,
    pub status: Option<String>,
    pub asset_class: Option<String>,
    pub exchange: Option<String>,
    pub attributes: Option<Vec<String>>,
}

impl AssetsQuery {
    /// The full request URL this query stands for.
    pub open spec fn spec_url(self) -> Seq<char> {
        self.url@ + "?"@ + opt_field("&status="@, self.status) + opt_field(
            "&asset_class="@,
            self.asset_class,
        ) + opt_field("&exchange="@, self.exchange) + (match self.attributes {
            Some(ts) => "&attributes="@ + spec_join(ts@),
            None => Seq::empty(),
        })
    }

    /// A fresh query against the assets endpoint of the chosen account.
    pub fn new(account_type: AccountType) -> (r: Self)
        ensures
            (account_type matches AccountType::Live ==> r.url@
                == "https://api.alpaca.markets/v2/assets"@),
            (account_type matches AccountType::Paper ==> r.url@
                == "https://paper-api.alpaca.markets/v2/assets"@),
            r.status is None,
            r.asset_class is None,
            r.exchange is None,
            r.attributes is None,
    {
        AssetsQuery {
            url: match account_type {
                AccountType::Live => "https://api.alpaca.markets/v2/assets".to_owned(),
                AccountType::Paper => "https://paper-api.alpaca.markets/v2/assets".to_owned(),
            },
            status: None,
            asset_class: None,
            exchange: None,
            attributes: None,
        }
    }

    /// The route of one asset, by id or by symbol.
    pub fn asset_route(&self, id_or_symbol: &str) -> (r: String)
        ensures
            r@ == self.url@ + "/"@ + id_or_symbol@,
    {
        let mut q = self.url.clone();
        q.append("/");
        q.append(id_or_symbol);
        assert(q@ =~= self.url@ + "/"@ + id_or_symbol@);
        q
    }

    /// Keeps only assets of the given status.
    pub fn status(self, status: &str) -> (r: Self)
        ensures
            r.status matches Some(s) && s@ == status@,
            r == (Self { status: r.status, ..self }),
    {
        Self { status: Some(status.to_owned()), ..self }
    }

    /// Keeps only assets of the given class.
    pub fn asset_class(self, asset_class: &str) -> (r: Self)
        ensures
            r.asset_class matches Some(s) && s@ == asset_class@,
            r == (Self { asset_class: r.asset_class, ..self }),
    {
        Self { asset_class: Some(asset_class.to_owned()), ..self }
    }

    /// Keeps only assets of the given exchange.
    pub fn exchange(self, exchange: &str) -> (r: Self)
        ensures
            r.exchange matches Some(s) && s@ == exchange@,
            r == (Self { exchange: r.exchange, ..self }),
    {
        Self { exchange: Some(exchange.to_owned()), ..self }
    }

    /// Keeps only assets carrying all the given attributes.
    pub fn attributes(self, attributes: Vec<&str>) -> (r: Self)
        ensures
            r.attributes matches Some(ts) && ts@.len() == attributes@.len() && (forall|i: int|
                0 <= i < ts@.len() ==> ts@[i]@ == attributes@[i]@),
            r == (Self { attributes: r.attributes, ..self }),
    {
        Self { attributes: Some(to_owned_vec(attributes)), ..self }
    }

    /// Writes the request URL, query parameters in their fixed order.
    #[verifier::rlimit(60)]
    pub fn build(&self) -> (r: String)
        ensures
            r@ == self.spec_url(),
    {
        let mut q = self.url.clone();
        q.append("?");
        push_opt(&mut q, "&status=", &self.status);
        push_opt(&mut q, "&asset_class=", &self.asset_class);
        push_opt(&mut q, "&exchange=", &self.exchange);
        if let Some(ts) = &self.attributes {
            q.append("&attributes=");
            push_join(&mut q, ts);
        }
        assert(q@ =~= self.spec_url());
        q
    }
}

/// One option contract.
#[derive(Debug, Clone)]
pub struct OptionContract {
    pub id: String,
    pub symbol: String,
    pub name: String,
    pub status: String,
    pub tradable: bool,
    pub expiration_date: String,
    pub root_symbol: String,
    pub underlying_symbol: String,
    pub underlying_asset_id: String,
    pub kind: String,
    pub style: String,
    pub strike_price: String,
    pub multiplier: String,
    pub size: String,
    pub open_interest: Option<String>,
    pub open_interest_date: Option<String>,
    pub close_price: Option<String>,
    pub close_price_date: Option<String>,
    pub deliverables: Option<Vec<Deliverable>>,
}

/// What one option contract settles into.
#[derive(Debug, Clone)]
pub struct Deliverable {
    pub kind: String,
    pub symbol: String,
    pub asset_id: String,
    pub amount: String,
    pub allocation_percentage: String,
    pub settlement_type: String,
    pub settlement_method: String,
    pub delayed_settlement: bool,
}

/// One page of option contracts.
#[derive(Debug, Clone)]
pub struct OptionContractsResponse {
    pub option_contracts: Vec<OptionContract>,
    pub next_page_token: Option<String>,
}

/// Query for option contracts.
pub struct OptionContractsQuery {
    pub url: String,
    pub underlying_symbols: Option<Vec<String>>,
    pub show_deliverables: bool,
    pub status: Option<String>,
    pub expiration_date: Option<String>,
    pub expiration_date_gte: Option<String>,
    pub expiration_date_lte: Option<String>,
    pub root_symbol: Option<String>,
    pub kind: Option<String>,
    pub style: Option<String>,
    pub strike_price_gte: Option<String>,
    pub strike_price_lte: Option<String>,
    pub limit: Option<usize>,
    pub ppind: Option<bool>,
}

impl OptionContractsQuery {
    /// The full request URL this query stands for.
    pub open spec fn spec_url(self) -> Seq<char> {
        self.url@ + "?"@ + (match self.underlying_symbols {
            Some(ts) => "&underlying_symbols="@ + spec_join(ts@),
            None => Seq::empty(),
        }) + (if self.show_deliverables {
            "&show_deliverables=true"@
        } else {
            Seq::empty()
        }) + opt_field("&status="@, self.status) + opt_field(
            "&expiration_date="@,
            self.expiration_date,
        ) + opt_field("&expiration_date_gte="@, self.expiration_date_gte) + opt_field(
            "&expiration_date_lte="@,
            self.expiration_date_lte,
        ) + opt_field("&root_symbol="@, self.root_symbol) + opt_field("&type="@, self.kind)
            + opt_field("&style="@, self.style) + opt_field(
            "&strike_price_gte="@,
            self.strike_price_gte,
        ) + opt_field("&strike_price_lte="@, self.strike_price_lte) + (match self.limit {
            Some(n) => "&limit="@ + crate::strutil::spec_dec(n as nat),
            None => Seq::empty(),
        }) + (match self.ppind {
            Some(b) => "&ppind="@ + crate::strutil::spec_bool(b),
            None => Seq::empty(),
        })
    }

    /// A fresh query against the option contracts endpoint of the chosen
    /// account.
    pub fn new(account_type: AccountType) -> (r: Self)
        ensures
            (account_type matches AccountType::Live ==> r.url@
                == "https://api.alpaca.markets/v2/options/contracts"@),
            (account_type matches AccountType::Paper ==> r.url@
                == "https://paper-api.alpaca.markets/v2/options/contracts"@),
            r.underlying_symbols is None,
            !r.show_deliverables,
            r.status is None,
            r.expiration_date is None,
            r.expiration_date_gte is None,
            r.expiration_date_lte is None,
            r.root_symbol is None,
            r.kind is None,
            r.style is None,
            r.strike_price_gte is None,
            r.strike_price_lte is None,
            r.limit is None,
            r.ppind is None,
    {
        OptionContractsQuery {
            url: match account_type {
                AccountType::Live => "https://api.alpaca.markets/v2/options/contracts".to_owned(),
                AccountType::Paper => "https://paper-api.alpaca.markets/v2/options/contracts".to_owned(),
            },
            underlying_symbols: None,
            show_deliverables: false,
            status: None,
            expiration_date: None,
            expiration_date_gte: None,
            expiration_date_lte: None,
            root_symbol: None,
            kind: None,
            style: None,
            strike_price_gte: None,
            strike_price_lte: None,
            limit: None,
            ppind: None,
        }
    }

    /// The route of one contract, by id or by symbol.
    pub fn contract_route(&self, id_or_symbol: &str) -> (r: String)
        ensures
            r@ == self.url@ + "/"@ + id_or_symbol@,
    {
        let mut q = self.url.clone();
        q.append("/");
        q.append(id_or_symbol);
        assert(q@ =~= self.url@ + "/"@ + id_or_symbol@);
        q
    }

    /// Keeps only contracts over the given underlying symbols.
    pub fn underlying_symbols(self, underlying_symbols: Vec<&str>) -> (r: Self)
        ensures
            r.underlying_symbols matches Some(ts) && ts@.len() == underlying_symbols@.len() && (
            forall|i: int| 0 <= i < ts@.len() ==> ts@[i]@ == underlying_symbols@[i]@),
            r == (Self { underlying_symbols: r.underlying_symbols, ..self }),
    {
        Self { underlying_symbols: Some(to_owned_vec(underlying_symbols)), ..self }
    }

    /// Asks for each contract's deliverables too.
    pub fn show_deliverables(self, show_deliverables: bool) -> (r: Self)
        ensures
            r.show_deliverables == show_deliverables,
            r == (Self { show_deliverables: r.show_deliverables, ..self }),
    {
        Self { show_deliverables: show_deliverables, ..self }
    }

    /// Keeps only contracts of the given status.
    pub fn status(self, status: &str) -> (r: Self)
        ensures
            r.status matches Some(s) && s@ == status@,
            r == (Self { status: r.status, ..self }),
    {
        Self { status: Some(status.to_owned()), ..self }
    }

    /// Keeps only contracts expiring on the given date.
    pub fn expiration_date(self, expiration_date: &str) -> (r: Self)
        ensures
            r.expiration_date matches Some(s) && s@ == expiration_date@,
            r == (Self { expiration_date: r.expiration_date, ..self }),
    {
        Self { expiration_date: Some(expiration_date.to_owned()), ..self }
    }

    /// Keeps only contracts expiring on or after the given date.
    pub fn expiration_date_gte(self, expiration_date_gte: &str) -> (r: Self)
        ensures
            r.expiration_date_gte matches Some(s) && s@ == expiration_date_gte@,
            r == (Self { expiration_date_gte: r.expiration_date_gte, ..self }),
    {
        Self { expiration_date_gte: Some(expiration_date_gte.to_owned()), ..self }
    }

    /// Keeps only contracts expiring on or before the given date.
    pub fn expiration_date_lte(self, expiration_date_lte: &str) -> (r: Self)
        ensures
            r.expiration_date_lte matches Some(s) && s@ == expiration_date_lte@,
            r == (Self { expiration_date_lte: r.expiration_date_lte, ..self }),
    {
        Self { expiration_date_lte: Some(expiration_date_lte.to_owned()), ..self }
    }

    /// Keeps only contracts of the given root symbol.
    pub fn root_symbol(self, root_symbol: &str) -> (r: Self)
        ensures
            r.root_symbol matches Some(s) && s@ == root_symbol@,
            r == (Self { root_symbol: r.root_symbol, ..self }),
    {
        Self { root_symbol: Some(root_symbol.to_owned()), ..self }
    }

    /// Keeps only calls or only puts.
    pub fn set_type(self, kind: &str) -> (r: Self)
        ensures
            r.kind matches Some(s) && s@ == kind@,
            r == (Self { kind: r.kind, ..self }),
    {
        Self { kind: Some(kind.to_owned()), ..self }
    }

    /// Keeps only contracts of the given exercise style.
    pub fn style(self, style: &str) -> (r: Self)
        ensures
            r.style matches Some(s) && s@ == style@,
            r == (Self { style: r.style, ..self }),
    {
        Self { style: Some(style.to_owned()), ..self }
    }

    /// Keeps only contracts with a strike at or above the given price.
    pub fn strike_price_gte(self, strike_price_gte: &str) -> (r: Self)
        ensures
            r.strike_price_gte matches Some(s) && s@ == strike_price_gte@,
            r == (Self { strike_price_gte: r.strike_price_gte, ..self }),
    {
        Self { strike_price_gte: Some(strike_price_gte.to_owned()), ..self }
    }

    /// Keeps only contracts with a strike at or below the given price.
    pub fn strike_price_lte(self, strike_price_lte: &str) -> (r: Self)
        ensures
            r.strike_price_lte matches Some(s) && s@ == strike_price_lte@,
            r == (Self { strike_price_lte: r.strike_price_lte, ..self }),
    {
        Self { strike_price_lte: Some(strike_price_lte.to_owned()), ..self }
    }

    /// Caps how many contracts are fetched.
    pub fn limit(self, limit: usize) -> (r: Self)
        ensures
            r.limit == Some(limit),
            r == (Self { limit: r.limit, ..self }),
    {
        Self { limit: Some(limit), ..self }
    }

    /// Keeps only contracts by their penny-pricing indicator.
    pub fn ppind(self, ppind: bool) -> (r: Self)
        ensures
            r.ppind == Some(ppind),
            r == (Self { ppind: r.ppind, ..self }),
    {
        Self { ppind: Some(ppind), ..self }
    }

    /// Writes the request URL, query parameters in their fixed order.
    #[verifier::rlimit(60)]
    pub fn build(&self) -> (r: String)
        ensures
            r@ == self.spec_url(),
    {
        let mut q = self.url.clone();
        q.append("?");
        if let Some(ts) = &self.underlying_symbols {
            q.append("&underlying_symbols=");
            push_join(&mut q, ts);
        }
        if self.show_deliverables {
            q.append("&show_deliverables=true");
        }
        push_opt(&mut q, "&status=", &self.status);
        push_opt(&mut q, "&expiration_date=", &self.expiration_date);
        push_opt(&mut q, "&expiration_date_gte=", &self.expiration_date_gte);
        push_opt(&mut q, "&expiration_date_lte=", &self.expiration_date_lte);
        push_opt(&mut q, "&root_symbol=", &self.root_symbol);
        push_opt(&mut q, "&type=", &self.kind);
        push_opt(&mut q, "&style=", &self.style);
        push_opt(&mut q, "&strike_price_gte=", &self.strike_price_gte);
        push_opt(&mut q, "&strike_price_lte=", &self.strike_price_lte);
        if let Some(n) = self.limit {
            q.append("&limit=");
            crate::strutil::push_u64(&mut q, n as u64);
        }
        if let Some(b) = self.ppind {
            q.append("&ppind=");
            crate::strutil::push_bool(&mut q, b);
        }
        assert(q@ =~= self.spec_url());
        q
    }
}

} // verus!
