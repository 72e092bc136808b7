use vstd::prelude::*;
use vstd::string::StringExecFns;

use crate::credentials::{AuthConfig, AuthKind};

verus! {

/// The JSON encoding of a string value: surrounding quotes with every
/// character escaped as JSON requires.
pub uninterp spec fn json_quoted(s: Seq<char>) -> Seq<char>;

/// Relies on serde_json::to_string for &str: the quoted, escaped JSON
/// encoding of the string, a function of its characters alone. It cannot
/// fail: a string serializes through the escape table into an infallible
/// byte-vector writer.
#[verifier::external_body]
fn json_quote(s: &str) -> (r: String)
    ensures
        r@ == json_quoted(s@),
{
    serde_json::to_string(s).expect("string serialization is infallible")
}

/// The label a credential kind serializes as.
pub open spec fn spec_kind_label(k: AuthKind) -> Seq<char> {
    if k is IdC {
        "IdC"@
    } else {
        "Social"@
    }
}

/// The JSON object one credential serializes as.
pub open spec fn spec_config_json(c: AuthConfig) -> Seq<char> {
    "{\"auth\":\""@ + spec_kind_label(c.auth) + "\",\"refreshToken\":"@ + json_quoted(
        c.refresh_token@,
    ) + "}"@
}

/// The comma-separated JSON objects of a credential sequence.
pub open spec fn spec_items_json(cs: Seq<AuthConfig>) -> Seq<char>
    decreases cs.len(),
{
    if cs.len() == 0 {
        Seq::empty()
    } else if cs.len() == 1 {
        spec_config_json(cs[0])
    } else {
        spec_items_json(cs.drop_last()) + ","@ + spec_config_json(cs.last())
    }
}

/// The JSON array a credential sequence serializes as.
pub open spec fn spec_configs_json(cs: Seq<AuthConfig>) -> Seq<char> {
    "["@ + spec_items_json(cs) + "]"@
}

proof fn lemma_items_json_push(cs: Seq<AuthConfig>, c: AuthConfig)
    ensures
        cs.len() == 0 ==> spec_items_json(cs.push(c)) == spec_config_json(c),
        cs.len() > 0 ==> spec_items_json(cs.push(c)) == spec_items_json(cs) + ","@
            + spec_config_json(c),
{
    assert(cs.push(c).drop_last() =~= cs);
    assert(cs.push(c).last() == c);
}

/// The label a credential kind serializes as.
pub fn kind_label(k: AuthKind) -> (r: &'static str)
    ensures
        r@ == spec_kind_label(k),
{
    match k {
        AuthKind::IdC => "IdC",
        AuthKind::Social => "Social",
    }
}

fn config_json(c: &AuthConfig) -> (r: String)
    ensures
        r@ == spec_config_json(*c),
{
    let quoted = json_quote(c.refresh_token.as_str());
    let mut s: String = "{\"auth\":\"".to_owned();
    s.append(kind_label(c.auth));
    s.append("\",\"refreshToken\":");
    s.append(quoted.as_str());
    s.append("}");
    proof {
        assert(s@ =~= spec_config_json(*c));
    }
    s
}

/// Serialize the credential bundle as the JSON array the worker expects.
/// Total: every credential encodes.
pub fn serialize_auth_configs(configs: &Vec<AuthConfig>) -> (r: String)
    ensures
        r@ == spec_configs_json(configs@),
{
    let mut out: String = "[".to_owned();
    let mut i: usize = 0;
    while i < configs.len()
        invariant
            0 <= i <= configs@.len(),
            out@ == "["@ + spec_items_json(configs@.take(i as int)),
        decreases configs@.len() - i,
    {
        let item = config_json(&configs[i]);
        if i > 0 {
            out.append(",");
        }
        out.append(item.as_str());
        proof {
            assert(configs@.take(i + 1 as int) =~= configs@.take(i as int).push(
                configs@[i as int],
            ));
            lemma_items_json_push(configs@.take(i as int), configs@[i as int]);
            assert(out@ =~= "["@ + spec_items_json(configs@.take(i + 1 as int)));
        }
        i = i + 1;
    }
    out.append("]");
    proof {
        assert(configs@.take(configs@.len() as int) == configs@);
        assert(out@ =~= spec_configs_json(configs@));
    }
    out
}

} // verus!
