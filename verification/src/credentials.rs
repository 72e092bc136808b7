use vstd::prelude::*;
use vstd::string::StrSliceExecFns;

use crate::errors::ServerError;

verus! {

/// One stored account, as account storage hands it over: an optional
/// refresh token, a status string, and an optional provider name.
#[derive(Debug, Clone)]
pub struct AccountRecord {
    pub refresh_token: Option<String>,
    pub status: String,
    pub provider: Option<String>,
}

/// The authentication kind of a credential, derived from the account's
/// provider field.
#[derive(Debug, Clone, Copy, PartialEq, Eq, Structural)]
pub enum AuthKind {
    IdC,
    Social,
}

/// A startup credential derived from one eligible account: its kind and
/// the refresh token the worker will use upstream. Built fresh on every
/// start attempt; never persisted.
#[derive(Debug, Clone)]
pub struct AuthConfig {
    pub auth: AuthKind,
    pub refresh_token: String,
}

/// Whether a provider name means the IdC kind: it equals "idc" ignoring
/// ASCII case.
pub open spec fn is_idc_name(s: Seq<char>) -> bool {
    s.len() == 3 && (s[0] == 'i' || s[0] == 'I') && (s[1] == 'd' || s[1] == 'D') && (s[2] == 'c'
        || s[2] == 'C')
}

/// The authentication kind an account's provider field yields: IdC when
/// the provider matches "idc" ignoring case, Social otherwise or when the
/// provider is unset.
pub open spec fn spec_auth_kind(provider: Option<String>) -> AuthKind {
    match provider {
        Some(p) => if is_idc_name(p@) {
            AuthKind::IdC
        } else {
            AuthKind::Social
        },
        None => AuthKind::Social,
    }
}

/// An account is eligible when it carries a non-empty refresh token and
/// its status is not "banned".
pub open spec fn spec_eligible(a: AccountRecord) -> bool {
    a.refresh_token matches Some(t) && t@.len() > 0 && a.status@ != "banned"@
}

/// The credential an eligible account turns into.
pub open spec fn spec_config_of(a: AccountRecord) -> AuthConfig {
    AuthConfig { auth: spec_auth_kind(a.provider), refresh_token: a.refresh_token->Some_0 }
}

/// The credential of an account, or nothing when it is ineligible.
pub open spec fn spec_config_opt(a: AccountRecord) -> Option<AuthConfig> {
    if spec_eligible(a) {
        Some(spec_config_of(a))
    } else {
        None
    }
}

/// The ordered credential bundle an account list yields: one credential
/// per eligible account, in the input order.
pub open spec fn spec_auth_configs(accounts: Seq<AccountRecord>) -> Seq<AuthConfig> {
    accounts.filter_map(|a: AccountRecord| spec_config_opt(a))
}

/// The eligible accounts of a list, in order.
pub open spec fn spec_eligible_accounts(accounts: Seq<AccountRecord>) -> Seq<AccountRecord> {
    accounts.filter(|a: AccountRecord| spec_eligible(a))
}

/// Every account list yields exactly one credential per eligible account,
/// in the same relative order, and a credential's kind is IdC exactly
/// when its account's provider equals "idc" ignoring case.
pub proof fn lemma_credentials_match_eligible(accounts: Seq<AccountRecord>)
    ensures
        spec_auth_configs(accounts).len() == spec_eligible_accounts(accounts).len(),
        forall|i: int|
            0 <= i < spec_auth_configs(accounts).len() ==> spec_auth_configs(accounts)[i]
                == spec_config_of(#[trigger] spec_eligible_accounts(accounts)[i]),
        forall|i: int|
            0 <= i < spec_auth_configs(accounts).len() ==> ((#[trigger] spec_auth_configs(
                accounts,
            )[i].auth is IdC) <==> (spec_eligible_accounts(accounts)[i].provider matches Some(p)
                && is_idc_name(p@))),
    decreases accounts.len(),
{
    reveal(Seq::filter);
    if accounts.len() > 0 {
        lemma_credentials_match_eligible(accounts.drop_last());
        let rest = accounts.drop_last();
        let last = accounts.last();
        if spec_eligible(last) {
            assert(spec_auth_configs(accounts) == spec_auth_configs(rest).push(
                spec_config_of(last),
            ));
            assert(spec_eligible_accounts(accounts) == spec_eligible_accounts(rest).push(last));
        } else {
            assert(spec_auth_configs(accounts) == spec_auth_configs(rest));
            assert(spec_eligible_accounts(accounts) == spec_eligible_accounts(rest));
        }
    }
}

/// Whether this account may contribute a credential: it has a non-empty
/// refresh token and its status is not "banned".
pub fn account_eligible(a: &AccountRecord) -> (r: bool)
    ensures
        r == spec_eligible(*a),
{
    match &a.refresh_token {
        Some(t) => !t.as_str().is_empty() && !str_eq_banned(a.status.as_str()),
        None => false,
    }
}

/// Whether the status string is exactly "banned".
fn str_eq_banned(s: &str) -> (r: bool)
    ensures
        r == (s@ == "banned"@),
{
    proof {
        reveal_strlit("banned");
    }
    let r = s.unicode_len() == 6 && s.get_char(0) == 'b' && s.get_char(1) == 'a' && s.get_char(2)
        == 'n' && s.get_char(3) == 'n' && s.get_char(4) == 'e' && s.get_char(5) == 'd';
    proof {
        if r {
            assert(s@ =~= "banned"@);
        }
    }
    r
}

/// The authentication kind the provider field yields.
pub fn auth_kind_of(provider: &Option<String>) -> (r: AuthKind)
    ensures
        r == spec_auth_kind(*provider),
{
    match provider {
        Some(p) => {
            let s = p.as_str();
            let idc = s.unicode_len() == 3 && {
                let c0 = s.get_char(0);
                let c1 = s.get_char(1);
                let c2 = s.get_char(2);
                (c0 == 'i' || c0 == 'I') && (c1 == 'd' || c1 == 'D') && (c2 == 'c' || c2 == 'C')
            };
            if idc {
                AuthKind::IdC
            } else {
                AuthKind::Social
            }
        },
        None => AuthKind::Social,
    }
}

/// Convert the stored accounts into the ordered credential bundle for a
/// start attempt: one credential per eligible account, in input order.
/// Refused with `EmptyCredentials` when no account is eligible.
pub fn aggregate_credentials(accounts: &Vec<AccountRecord>) -> (r: Result<
    Vec<AuthConfig>,
    ServerError,
>)
    ensures
        spec_auth_configs(accounts@).len() == 0 ==> r == Err::<Vec<AuthConfig>, ServerError>(
            ServerError::EmptyCredentials,
        ),
        spec_auth_configs(accounts@).len() > 0 ==> (r matches Ok(cs) && cs@ == spec_auth_configs(
            accounts@,
        )),
{
    let mut configs: Vec<AuthConfig> = Vec::new();
    let mut i: usize = 0;
    while i < accounts.len()
        invariant
            0 <= i <= accounts@.len(),
            configs@ == spec_auth_configs(accounts@.take(i as int)),
        decreases accounts@.len() - i,
    {
        let a = &accounts[i];
        proof {
            accounts@.lemma_filter_map_take_succ(|x: AccountRecord| spec_config_opt(x), i as int);
        }
        if account_eligible(a) {
            let token = match &a.refresh_token {
                Some(t) => t.clone(),
                None => String::new(),
            };
            configs.push(AuthConfig { auth: auth_kind_of(&a.provider), refresh_token: token });
        }
        i = i + 1;
    }
    proof {
        assert(accounts@.take(accounts@.len() as int) == accounts@);
    }
    if configs.len() == 0 {
        Err(ServerError::EmptyCredentials)
    } else {
        Ok(configs)
    }
}

} // verus!
