//! Transactions: trades, signings, injured list moves and the like, and the request for them.

use vstd::prelude::*;
use crate::ids::{PersonId, SportId, TeamId, TransactionId};
use crate::date::{Date, date_text};
use crate::types::Copyright;
use crate::teams::Team;
use crate::text::{dec, kv, query, opt_views, param, push_char, push_str};
use crate::request::{opt_num_kv, opt_id_param, url_with_query, join_ids, ids_text};
use crate::league::opt_id;

verus! {

/// The response of the `transactions` endpoint.
#[derive(Debug, Clone)]
pub struct TransactionsResponse {
    pub copyright: Copyright,
    pub transactions: Vec<Transaction>,
}

/// The part every transaction has: its identifier, description and dates.
#[derive(Debug, Clone)]
pub struct TransactionCommon {
    pub id: TransactionId,
    pub description: String,
    pub dates: TransactionDates,
}

/// The dates of a transaction.
#[derive(Debug, Clone, Copy)]
pub struct TransactionDates {
    pub date: Date,
    pub effective_date: Option<Date>,
    pub resolution_date: Option<Date>,
}

/// A transaction, such as a trade, a signing or a move to the injured list; the variant is
/// the kind of transaction, named by its type code in the API.
#[derive(Debug, Clone)]
pub enum Transaction {
    /// Type code `ASG`.
    Assigned {
        common: TransactionCommon,
        person: PersonId,
        source_team: Option<Team>,
        destination_team: Team,
    },
    /// Type code `SC`.
    StatusChange {
        common: TransactionCommon,
        person: PersonId,
        team: Team,
    },
    /// Type code `SFA`.
    SignedAsFreeAgent {
        common: TransactionCommon,
        person: PersonId,
        team: Team,
    },
    /// Type code `DES`.
    DesignatedForAssignment {
        common: TransactionCommon,
        person: PersonId,
        team: Team,
    },
    /// Type code `TR`.
    Trade {
        common: TransactionCommon,
        person: Option<PersonId>,
        source_team: Team,
        destination_team: Team,
    },
    /// Type code `NUM`.
    NumberChange {
        common: TransactionCommon,
        person: PersonId,
        team: Team,
    },
    /// Type code `OUT`.
    Outrighted {
        common: TransactionCommon,
        person: PersonId,
        source_team: Team,
        destination_team: Team,
    },
    /// Type code `CLW`.
    ClaimedOffWaivers {
        common: TransactionCommon,
        person: PersonId,
        source_team: Team,
        destination_team: Team,
    },
    /// Type code `SGN`.
    Signed {
        common: TransactionCommon,
        person: PersonId,
        team: Team,
    },
    /// Type code `REL`.
    Released {
        common: TransactionCommon,
        person: PersonId,
        team: Team,
    },
    /// Type code `DFA`.
    DeclaredFreeAgency {
        common: TransactionCommon,
        person: PersonId,
        source_team: Team,
    },
    /// Type code `OPT`.
    Optioned {
        common: TransactionCommon,
        person: PersonId,
        source_team: Team,
        destination_team: Team,
    },
    /// Type code `RTN`.
    Returned {
        common: TransactionCommon,
        person: PersonId,
        source_team: Team,
        destination_team: Team,
    },
    /// Type code `SE`.
    Selected {
        common: TransactionCommon,
        person: PersonId,
        source_team: Option<Team>,
        destination_team: Team,
    },
    /// Type code `CU`.
    Recalled {
        common: TransactionCommon,
        person: PersonId,
        source_team: Option<Team>,
        destination_team: Team,
    },
    /// Type code `SU`.
    Suspension {
        common: TransactionCommon,
        person: PersonId,
        team: Team,
    },
    /// Type code `RET`.
    Retired {
        common: TransactionCommon,
        person: PersonId,
        team: Team,
    },
    /// Type code `PUR`.
    Purchase {
        common: TransactionCommon,
        person: PersonId,
        source_team: Option<Team>,
        destination_team: Team,
    },
    /// Type code `R5`.
    RuleFiveDraft {
        common: TransactionCommon,
        person: PersonId,
        source_team: Team,
        destination_team: Team,
    },
    /// Type code `RE`.
    Reinstated {
        common: TransactionCommon,
        person: PersonId,
        team: Team,
    },
    /// Type code `LON`.
    Loan {
        common: TransactionCommon,
        person: PersonId,
        source_team: Team,
        destination_team: Team,
    },
    /// Type code `CP`.
    ContractPurchased {
        common: TransactionCommon,
        person: PersonId,
        team: Team,
    },
    /// Type code `DR`.
    Drafted {
        common: TransactionCommon,
        person: PersonId,
        team: Team,
    },
    /// Type code `DEI`.
    DeclaredIneligible {
        common: TransactionCommon,
        person: PersonId,
        team: Team,
    },
}

/// The part every transaction has, whatever its kind.
pub open spec fn transaction_common(t: Transaction) -> TransactionCommon {
    match t {
        Transaction::Assigned { common, .. } => common,
        Transaction::StatusChange { common, .. } => common,
        Transaction::SignedAsFreeAgent { common, .. } => common,
        Transaction::DesignatedForAssignment { common, .. } => common,
        Transaction::Trade { common, .. } => common,
        Transaction::NumberChange { common, .. } => common,
        Transaction::Outrighted { common, .. } => common,
        Transaction::ClaimedOffWaivers { common, .. } => common,
        Transaction::Signed { common, .. } => common,
        Transaction::Released { common, .. } => common,
        Transaction::DeclaredFreeAgency { common, .. } => common,
        Transaction::Optioned { common, .. } => common,
        Transaction::Returned { common, .. } => common,
        Transaction::Selected { common, .. } => common,
        Transaction::Recalled { common, .. } => common,
        Transaction::Suspension { common, .. } => common,
        Transaction::Retired { common, .. } => common,
        Transaction::Purchase { common, .. } => common,
        Transaction::RuleFiveDraft { common, .. } => common,
        Transaction::Reinstated { common, .. } => common,
        Transaction::Loan { common, .. } => common,
        Transaction::ContractPurchased { common, .. } => common,
        Transaction::Drafted { common, .. } => common,
        Transaction::DeclaredIneligible { common, .. } => common,
    }
}

/// A transaction with its common part replaced, its kind and other fields kept.
pub open spec fn with_common(t: Transaction, c: TransactionCommon) -> Transaction {
    match t {
        Transaction::Assigned { person, source_team, destination_team, .. } => Transaction::Assigned { common: c, person, source_team, destination_team },
        Transaction::StatusChange { person, team, .. } => Transaction::StatusChange { common: c, person, team },
        Transaction::SignedAsFreeAgent { person, team, .. } => Transaction::SignedAsFreeAgent { common: c, person, team },
        Transaction::DesignatedForAssignment { person, team, .. } => Transaction::DesignatedForAssignment { common: c, person, team },
        Transaction::Trade { person, source_team, destination_team, .. } => Transaction::Trade { common: c, person, source_team, destination_team },
        Transaction::NumberChange { person, team, .. } => Transaction::NumberChange { common: c, person, team },
        Transaction::Outrighted { person, source_team, destination_team, .. } => Transaction::Outrighted { common: c, person, source_team, destination_team },
        Transaction::ClaimedOffWaivers { person, source_team, destination_team, .. } => Transaction::ClaimedOffWaivers { common: c, person, source_team, destination_team },
        Transaction::Signed { person, team, .. } => Transaction::Signed { common: c, person, team },
        Transaction::Released { person, team, .. } => Transaction::Released { common: c, person, team },
        Transaction::DeclaredFreeAgency { person, source_team, .. } => Transaction::DeclaredFreeAgency { common: c, person, source_team },
        Transaction::Optioned { person, source_team, destination_team, .. } => Transaction::Optioned { common: c, person, source_team, destination_team },
        Transaction::Returned { person, source_team, destination_team, .. } => Transaction::Returned { common: c, person, source_team, destination_team },
        Transaction::Selected { person, source_team, destination_team, .. } => Transaction::Selected { common: c, person, source_team, destination_team },
        Transaction::Recalled { person, source_team, destination_team, .. } => Transaction::Recalled { common: c, person, source_team, destination_team },
        Transaction::Suspension { person, team, .. } => Transaction::Suspension { common: c, person, team },
        Transaction::Retired { person, team, .. } => Transaction::Retired { common: c, person, team },
        Transaction::Purchase { person, source_team, destination_team, .. } => Transaction::Purchase { common: c, person, source_team, destination_team },
        Transaction::RuleFiveDraft { person, source_team, destination_team, .. } => Transaction::RuleFiveDraft { common: c, person, source_team, destination_team },
        Transaction::Reinstated { person, team, .. } => Transaction::Reinstated { common: c, person, team },
        Transaction::Loan { person, source_team, destination_team, .. } => Transaction::Loan { common: c, person, source_team, destination_team },
        Transaction::ContractPurchased { person, team, .. } => Transaction::ContractPurchased { common: c, person, team },
        Transaction::Drafted { person, team, .. } => Transaction::Drafted { common: c, person, team },
        Transaction::DeclaredIneligible { person, team, .. } => Transaction::DeclaredIneligible { common: c, person, team },
    }
}

impl Transaction {
    /// The part every transaction has, to change in place.
    pub fn common_mut(&mut self) -> (res: &mut TransactionCommon)
        ensures
            *res == transaction_common(*old(self)),
            *final(self) == with_common(*old(self), *final(res)),
    {
        match self {
            Transaction::Assigned { common, .. } => common,
            Transaction::StatusChange { common, .. } => common,
            Transaction::SignedAsFreeAgent { common, .. } => common,
            Transaction::DesignatedForAssignment { common, .. } => common,
            Transaction::Trade { common, .. } => common,
            Transaction::NumberChange { common, .. } => common,
            Transaction::Outrighted { common, .. } => common,
            Transaction::ClaimedOffWaivers { common, .. } => common,
            Transaction::Signed { common, .. } => common,
            Transaction::Released { common, .. } => common,
            Transaction::DeclaredFreeAgency { common, .. } => common,
            Transaction::Optioned { common, .. } => common,
            Transaction::Returned { common, .. } => common,
            Transaction::Selected { common, .. } => common,
            Transaction::Recalled { common, .. } => common,
            Transaction::Suspension { common, .. } => common,
            Transaction::Retired { common, .. } => common,
            Transaction::Purchase { common, .. } => common,
            Transaction::RuleFiveDraft { common, .. } => common,
            Transaction::Reinstated { common, .. } => common,
            Transaction::Loan { common, .. } => common,
            Transaction::ContractPurchased { common, .. } => common,
            Transaction::Drafted { common, .. } => common,
            Transaction::DeclaredIneligible { common, .. } => common,
        }
    }

    /// The part every transaction has: its identifier, description and dates.
    pub fn common(&self) -> (res: &TransactionCommon)
        ensures
            *res == transaction_common(*self),
    {
        match self {
            Transaction::Assigned { common, .. } => common,
            Transaction::StatusChange { common, .. } => common,
            Transaction::SignedAsFreeAgent { common, .. } => common,
            Transaction::DesignatedForAssignment { common, .. } => common,
            Transaction::Trade { common, .. } => common,
            Transaction::NumberChange { common, .. } => common,
            Transaction::Outrighted { common, .. } => common,
            Transaction::ClaimedOffWaivers { common, .. } => common,
            Transaction::Signed { common, .. } => common,
            Transaction::Released { common, .. } => common,
            Transaction::DeclaredFreeAgency { common, .. } => common,
            Transaction::Optioned { common, .. } => common,
            Transaction::Returned { common, .. } => common,
            Transaction::Selected { common, .. } => common,
            Transaction::Recalled { common, .. } => common,
            Transaction::Suspension { common, .. } => common,
            Transaction::Retired { common, .. } => common,
            Transaction::Purchase { common, .. } => common,
            Transaction::RuleFiveDraft { common, .. } => common,
            Transaction::Reinstated { common, .. } => common,
            Transaction::Loan { common, .. } => common,
            Transaction::ContractPurchased { common, .. } => common,
            Transaction::Drafted { common, .. } => common,
            Transaction::DeclaredIneligible { common, .. } => common,
        }
    }

    /// The description of the transaction, which is how it is displayed.
    pub fn to_string(&self) -> (res: String)
        ensures
            res@ == transaction_common(*self).description@,
    {
        self.common().description.clone()
    }
}

/// What a request for transactions selects them by.
#[derive(Debug, Clone)]
pub enum TransactionsEndpointUrlKind {
    Team(TeamId),
    Player(PersonId),
    Transactions(Vec<TransactionId>),
    /// The dates from the first to the last, both included.
    DateRange(Date, Date),
}

/// The query entry of a selection of transactions.
pub open spec fn kind_text(k: TransactionsEndpointUrlKind) -> Seq<char> {
    match k {
        TransactionsEndpointUrlKind::Team(t) => kv("teamId"@, dec(t.0 as nat)),
        TransactionsEndpointUrlKind::Player(p) => kv("playerId"@, dec(p.0 as nat)),
        TransactionsEndpointUrlKind::Transactions(ids) => kv("transactionIds"@, ids_text(ids@)),
        TransactionsEndpointUrlKind::DateRange(start, end) => kv("startDate"@, date_text(start@.0, start@.1, start@.2))
            + seq!['&'] + kv("endDate"@, date_text(end@.0, end@.1, end@.2)),
    }
}

impl TransactionsEndpointUrlKind {
    /// The query entry of the selection, such as `teamId=141` or
    /// `startDate=2025-01-01&endDate=2025-12-31`.
    pub fn to_string(&self) -> (res: String)
        ensures
            res@ == kind_text(*self),
    {
        match self {
            TransactionsEndpointUrlKind::Team(t) => {
                let v = t.to_string();
                param("teamId", v.as_str())
            },
            TransactionsEndpointUrlKind::Player(p) => {
                let v = p.to_string();
                param("playerId", v.as_str())
            },
            TransactionsEndpointUrlKind::Transactions(ids) => {
                let v = join_ids(ids);
                param("transactionIds", v.as_str())
            },
            TransactionsEndpointUrlKind::DateRange(start, end) => {
                let a = start.to_api_string();
                let b = end.to_api_string();
                let mut s = param("startDate", a.as_str());
                push_char(&mut s, '&');
                let e = param("endDate", b.as_str());
                push_str(&mut s, e.as_str());
                s
            },
        }
    }
}

/// The request for transactions, of a sport where one is given.
///
/// The API fills what a transaction lacks (no team, no date, no player) with values that are
/// valid but that any request refuses, such as a person of identifier 0.
#[derive(Debug, Clone)]
pub struct TransactionsEndpointUrl {
    pub kind: TransactionsEndpointUrlKind,
    pub sport_id: Option<SportId>,
}

/// The URL of a [`TransactionsEndpointUrl`].
pub open spec fn transactions_url(r: TransactionsEndpointUrl) -> Seq<char> {
    "http://statsapi.mlb.com/api/v1/transactions"@ + query(
        seq![Some(kind_text(r.kind)), opt_num_kv("sportId"@, opt_id(r.sport_id))],
    )
}

impl TransactionsEndpointUrl {
    /// The URL of the request.
    pub fn to_string(&self) -> (res: String)
        ensures
            res@ == transactions_url(*self),
    {
        let pieces = vec![Some(self.kind.to_string()), opt_id_param("sportId", &self.sport_id)];
        assert(opt_views(pieces@) =~= seq![Some(kind_text(self.kind)), opt_num_kv("sportId"@, opt_id(self.sport_id))]);
        url_with_query("http://statsapi.mlb.com/api/v1/transactions", &pieces)
    }
}


/// The URL of a transactions request holds what it selects the transactions by (the team, the
/// player, the transactions, or the first and last dates), and the sport where it is given.
pub proof fn lemma_transactions_url_holds_filters(r: TransactionsEndpointUrl)
    ensures
        r.kind matches TransactionsEndpointUrlKind::Team(t) ==> crate::text::holds_entry(transactions_url(r), crate::text::kv("teamId"@, crate::text::dec(t.0 as nat))),
        r.kind matches TransactionsEndpointUrlKind::Player(p) ==> crate::text::holds_entry(transactions_url(r), crate::text::kv("playerId"@, crate::text::dec(p.0 as nat))),
        r.kind matches TransactionsEndpointUrlKind::Transactions(ids) ==> crate::text::holds_entry(transactions_url(r), crate::text::kv("transactionIds"@, ids_text(ids@))),
        r.kind matches TransactionsEndpointUrlKind::DateRange(start, end) ==> crate::text::holds_entry(
            transactions_url(r),
            crate::text::kv("startDate"@, crate::date::date_text(start@.0, start@.1, start@.2)),
        ) && crate::text::holds_entry(transactions_url(r), crate::text::kv("endDate"@, crate::date::date_text(end@.0, end@.1, end@.2))),
        r.sport_id matches Some(s) ==> crate::text::holds_entry(transactions_url(r), crate::text::kv("sportId"@, crate::text::dec(s.0 as nat))),
{
    let base = "http://statsapi.mlb.com/api/v1/transactions"@;
    let pieces = seq![Some(kind_text(r.kind)), opt_num_kv("sportId"@, opt_id(r.sport_id))];
    assert(transactions_url(r) == base + query(pieces));
    crate::text::lemma_query_holds_entries(base, pieces);
    assert(pieces[0] == Some(kind_text(r.kind)));
    if let TransactionsEndpointUrlKind::DateRange(start, end) = r.kind {
        crate::text::lemma_holds_joined_entry(
            transactions_url(r),
            crate::text::kv("startDate"@, crate::date::date_text(start@.0, start@.1, start@.2)),
            crate::text::kv("endDate"@, crate::date::date_text(end@.0, end@.1, end@.2)),
        );
    }
}

} // verus!
