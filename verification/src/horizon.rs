//! The ledger account pipeline for a Horizon-compatible read API: the
//! request URL built from an endpoint and an account identifier, the
//! classification of the HTTP outcome, and the normalization of the raw
//! account record into a presentable snapshot.
//!
//! The HTTP transport and the JSON decoding are collaborators supplied by
//! the caller; they hand this module plain values.

use vstd::prelude::*;
use crate::text::{str_eq, spec_decimal, u16_to_decimal};

verus! {

/// One raw balance entry as the remote API reports it: an amount, an
/// asset type, and the optional code and issuer of an issued asset.
#[derive(Clone, Debug)]
pub struct Balance {
    pub balance: String,
    pub asset_type: String,
    pub asset_code: Option<String>,
    pub asset_issuer: Option<String>,
}

/// The mathematical model of a raw balance entry.
#[verifier::ext_equal]
pub struct BalanceModel {
    pub balance: Seq<char>,
    pub asset_type: Seq<char>,
    pub asset_code: Option<Seq<char>>,
    pub asset_issuer: Option<Seq<char>>,
}

impl View for Balance {
    type V = BalanceModel;

    open spec fn view(&self) -> BalanceModel {
        BalanceModel {
            balance: self.balance@,
            asset_type: self.asset_type@,
            asset_code: self.asset_code.deep_view(),
            asset_issuer: self.asset_issuer.deep_view(),
        }
    }
}

/// The raw account record as the remote API reports it.
#[derive(Clone, Debug)]
pub struct AccountInfo {
    pub id: String,
    pub sequence: String,
    pub balances: Vec<Balance>,
    pub subentry_count: u32,
}

/// The mathematical model of a raw account record.
#[verifier::ext_equal]
pub struct AccountInfoModel {
    pub id: Seq<char>,
    pub sequence: Seq<char>,
    pub balances: Seq<BalanceModel>,
    pub subentry_count: u32,
}

impl View for AccountInfo {
    type V = AccountInfoModel;

    open spec fn view(&self) -> AccountInfoModel {
        AccountInfoModel {
            id: self.id@,
            sequence: self.sequence@,
            balances: self.balances@.map_values(|b: Balance| b@),
            subentry_count: self.subentry_count,
        }
    }
}

/// How a balance entry is classified: the ledger's intrinsic unit, an
/// asset issued by an account, or an asset type this client does not
/// know.
#[derive(Clone, Copy, Debug, PartialEq, Eq, Structural)]
pub enum BalanceKind {
    Native,
    IssuedCredit,
    Other,
}

/// One normalized balance entry: its kind, the raw amount, and the
/// display fields filled in by the classification rules.
#[derive(Clone, Debug)]
pub struct NormalizedBalance {
    pub kind: BalanceKind,
    pub raw_amount: String,
    pub display_code: String,
    pub display_issuer: Option<String>,
}

/// The mathematical model of a normalized balance entry.
#[verifier::ext_equal]
pub struct NormalizedBalanceModel {
    pub kind: BalanceKind,
    pub raw_amount: Seq<char>,
    pub display_code: Seq<char>,
    pub display_issuer: Option<Seq<char>>,
}

impl View for NormalizedBalance {
    type V = NormalizedBalanceModel;

    open spec fn view(&self) -> NormalizedBalanceModel {
        NormalizedBalanceModel {
            kind: self.kind,
            raw_amount: self.raw_amount@,
            display_code: self.display_code@,
            display_issuer: self.display_issuer.deep_view(),
        }
    }
}

/// The normalized account state returned to the caller.
#[derive(Clone, Debug)]
pub struct AccountSnapshot {
    pub account_id: String,
    pub sequence: String,
    pub subentry_count: u32,
    pub balances: Vec<NormalizedBalance>,
}

/// The mathematical model of a normalized account state.
#[verifier::ext_equal]
pub struct AccountSnapshotModel {
    pub account_id: Seq<char>,
    pub sequence: Seq<char>,
    pub subentry_count: u32,
    pub balances: Seq<NormalizedBalanceModel>,
}

impl View for AccountSnapshot {
    type V = AccountSnapshotModel;

    open spec fn view(&self) -> AccountSnapshotModel {
        AccountSnapshotModel {
            account_id: self.account_id@,
            sequence: self.sequence@,
            subentry_count: self.subentry_count,
            balances: self.balances@.map_values(|b: NormalizedBalance| b@),
        }
    }
}

/// The classification of one raw balance entry, in rule order: asset
/// type "native" is the native unit, shown under the fixed symbol "XLM"
/// with no issuer; the two credit types are issued assets, with absent
/// optional fields degrading to the sentinel "UNKNOWN"; every other
/// asset type is kept as-is under its raw type string, with no issuer.
pub open spec fn spec_normalize(b: BalanceModel) -> NormalizedBalanceModel {
    if b.asset_type == "native"@ {
        NormalizedBalanceModel {
            kind: BalanceKind::Native,
            raw_amount: b.balance,
            display_code: "XLM"@,
            display_issuer: None,
        }
    } else if b.asset_type == "credit_alphanum4"@ || b.asset_type == "credit_alphanum12"@ {
        NormalizedBalanceModel {
            kind: BalanceKind::IssuedCredit,
            raw_amount: b.balance,
            display_code: match b.asset_code {
                Some(c) => c,
                None => "UNKNOWN"@,
            },
            display_issuer: Some(
                match b.asset_issuer {
                    Some(s) => s,
                    None => "UNKNOWN"@,
                },
            ),
        }
    } else {
        NormalizedBalanceModel {
            kind: BalanceKind::Other,
            raw_amount: b.balance,
            display_code: b.asset_type,
            display_issuer: None,
        }
    }
}

/// Normalizes one raw balance entry.  Total: accepts every raw entry,
/// optional fields absent or not, and never fails.
pub fn normalize(b: &Balance) -> (r: NormalizedBalance)
    ensures
        r@ == spec_normalize(b@),
{
    if str_eq(b.asset_type.as_str(), "native") {
        NormalizedBalance {
            kind: BalanceKind::Native,
            raw_amount: b.balance.clone(),
            display_code: String::from_str("XLM"),
            display_issuer: None,
        }
    } else if str_eq(b.asset_type.as_str(), "credit_alphanum4") || str_eq(
        b.asset_type.as_str(),
        "credit_alphanum12",
    ) {
        let code = match &b.asset_code {
            Some(c) => c.clone(),
            None => String::from_str("UNKNOWN"),
        };
        let issuer = match &b.asset_issuer {
            Some(s) => s.clone(),
            None => String::from_str("UNKNOWN"),
        };
        NormalizedBalance {
            kind: BalanceKind::IssuedCredit,
            raw_amount: b.balance.clone(),
            display_code: code,
            display_issuer: Some(issuer),
        }
    } else {
        NormalizedBalance {
            kind: BalanceKind::Other,
            raw_amount: b.balance.clone(),
            display_code: b.asset_type.clone(),
            display_issuer: None,
        }
    }
}

/// Law: normalization is total, and the classification is exhaustive
/// and exclusive.  Every raw balance entry — optional fields absent or
/// not — is classified into exactly one kind: `Native` exactly for the
/// asset type "native", `IssuedCredit` exactly for the two credit
/// types, `Other` for everything else; the raw amount is always carried
/// over, and an absent optional field of an issued credit degrades to
/// the sentinel rather than failing.
pub proof fn lemma_normalize_total(b: BalanceModel)
    ensures
        spec_normalize(b).kind == BalanceKind::Native <==> b.asset_type == "native"@,
        spec_normalize(b).kind == BalanceKind::IssuedCredit <==> (b.asset_type
            == "credit_alphanum4"@ || b.asset_type == "credit_alphanum12"@),
        spec_normalize(b).kind == BalanceKind::Other <==> (b.asset_type != "native"@
            && b.asset_type != "credit_alphanum4"@ && b.asset_type != "credit_alphanum12"@),
        spec_normalize(b).raw_amount == b.balance,
        spec_normalize(b).kind == BalanceKind::IssuedCredit && b.asset_code is None
            ==> spec_normalize(b).display_code == "UNKNOWN"@,
        spec_normalize(b).kind == BalanceKind::IssuedCredit && b.asset_issuer is None
            ==> spec_normalize(b).display_issuer == Some("UNKNOWN"@),
{
    reveal_strlit("native");
    reveal_strlit("credit_alphanum4");
    reveal_strlit("credit_alphanum12");
    assert("native"@.len() != "credit_alphanum4"@.len());
    assert("native"@.len() != "credit_alphanum12"@.len());
    assert("credit_alphanum4"@.len() != "credit_alphanum12"@.len());
}

/// The normalization of a whole raw account record: identity fields are
/// carried over unchanged, and each balance entry is classified in input
/// order.
pub open spec fn spec_normalize_account(a: AccountInfoModel) -> AccountSnapshotModel {
    AccountSnapshotModel {
        account_id: a.id,
        sequence: a.sequence,
        subentry_count: a.subentry_count,
        balances: a.balances.map_values(|b: BalanceModel| spec_normalize(b)),
    }
}

/// Normalizes a decoded account record into a snapshot: one normalized
/// entry per raw balance, in input order.
pub fn normalize_account(info: &AccountInfo) -> (r: AccountSnapshot)
    ensures
        r@ == spec_normalize_account(info@),
{
    let n = info.balances.len();
    let mut out: Vec<NormalizedBalance> = Vec::new();
    let mut i: usize = 0;
    while i < n
        invariant
            i <= n,
            n == info.balances@.len(),
            out@.len() == i,
            forall|j: int| 0 <= j < i ==> out@[j]@ == spec_normalize(info.balances@[j]@),
        decreases n - i,
    {
        let nb = normalize(&info.balances[i]);
        out.push(nb);
        i += 1;
    }
    let r = AccountSnapshot {
        account_id: info.id.clone(),
        sequence: info.sequence.clone(),
        subentry_count: info.subentry_count,
        balances: out,
    };
    proof {
        assert(r@.balances =~= spec_normalize_account(info@).balances);
        assert(r@ =~= spec_normalize_account(info@));
    }
    r
}

/// Strips every trailing slash from an endpoint, so that the request
/// path can be appended without a double slash.
pub open spec fn spec_trim_endpoint(s: Seq<char>) -> Seq<char>
    decreases s.len(),
{
    if s.len() > 0 && s[s.len() - 1] == '/' {
        spec_trim_endpoint(s.drop_last())
    } else {
        s
    }
}

/// The request URL of an account lookup: the trimmed endpoint, the fixed
/// path "/accounts/", and the account identifier.
pub open spec fn spec_account_url(endpoint: Seq<char>, account: Seq<char>) -> Seq<char> {
    spec_trim_endpoint(endpoint) + "/accounts/"@ + account
}

/// Builds the request URL for an account lookup from the configured
/// endpoint and the queried account identifier.
pub fn build_account_url(endpoint: &str, account_id: &str) -> (r: String)
    ensures
        r@ == spec_account_url(endpoint@, account_id@),
{
    let len = endpoint.unicode_len();
    let mut end: usize = len;
    proof {
        assert(endpoint@.subrange(0, len as int) =~= endpoint@);
    }
    while end > 0 && endpoint.get_char(end - 1) == '/'
        invariant
            end <= len,
            len == endpoint@.len(),
            spec_trim_endpoint(endpoint@) == spec_trim_endpoint(
                endpoint@.subrange(0, end as int),
            ),
        decreases end,
    {
        proof {
            assert(endpoint@.subrange(0, end as int).drop_last() =~= endpoint@.subrange(
                0,
                end - 1,
            ));
        }
        end = end - 1;
    }
    let base = endpoint.substring_char(0, end);
    let url = base.to_owned().concat("/accounts/").concat(account_id);
    proof {
        assert(url@ =~= spec_account_url(endpoint@, account_id@));
    }
    url
}

/// Whether an HTTP status code lies in the success range.
pub open spec fn spec_is_success(status: u16) -> bool {
    200 <= status < 300
}

/// Classifies a received HTTP status: a status in the success range
/// passes, every other status is an API error carrying that status.  A
/// received status is never a network error: transport failures arise
/// only where no status was received at all.
pub fn check_status(status: u16) -> (r: Result<(), HorizonError>)
    ensures
        r is Ok <==> spec_is_success(status),
        r matches Err(e) ==> e matches HorizonError::ApiError(s, m) && s == status && m@
            == "Failed to fetch account"@,
{
    if 200 <= status && status < 300 {
        Ok(())
    } else {
        Err(HorizonError::ApiError(status, String::from_str("Failed to fetch account")))
    }
}

/// Errors of a remote account lookup: the transport failed before any
/// response arrived, the API answered with a failure status, or the
/// response body did not decode into the expected account shape.
#[derive(Debug)]
pub enum HorizonError {
    NetworkError(String),
    ApiError(u16, String),
    ParseError(String),
}

impl HorizonError {
    /// A human-readable rendering of the error.
    pub fn describe(&self) -> (r: String)
        ensures
            match self {
                HorizonError::NetworkError(e) => r@ == "Network Error: "@ + e@,
                HorizonError::ApiError(code, msg) => r@ == "API Error "@ + spec_decimal(
                    *code as nat,
                ) + ": "@ + msg@,
                HorizonError::ParseError(e) => r@ == "Parse Error: "@ + e@,
            },
    {
        match self {
            HorizonError::NetworkError(e) => String::from_str("Network Error: ").concat(
                e.as_str(),
            ),
            HorizonError::ApiError(code, msg) => {
                let digits = u16_to_decimal(*code);
                let r = String::from_str("API Error ").concat(digits.as_str()).concat(
                    ": ",
                ).concat(msg.as_str());
                proof {
                    assert(r@ =~= "API Error "@ + spec_decimal(*code as nat) + ": "@ + msg@);
                }
                r
            },
            HorizonError::ParseError(e) => String::from_str("Parse Error: ").concat(e.as_str()),
        }
    }
}

} // verus!
