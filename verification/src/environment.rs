use vstd::prelude::*;
use vstd::string::StringExecFns;

verus! {

/// The view of an environment mapping: variable names and values as
/// character sequences, in insertion order.
pub open spec fn env_view(v: Seq<(String, String)>) -> Seq<(Seq<char>, Seq<char>)> {
    v.map_values(|p: (String, String)| (p.0@, p.1@))
}

/// The environment the worker is started with: its storage file under the
/// application data directory (when one is known), its listening port,
/// the shared client token, and the serialized credential bundle.
pub open spec fn spec_env(data_dir: Option<String>, auth_json: Seq<char>) -> Seq<
    (Seq<char>, Seq<char>),
> {
    let tail = seq![
        ("PORT"@, "7860"@),
        ("KIRO_CLIENT_TOKEN"@, "local-sidecar-token"@),
        ("KIRO_AUTH_TOKEN"@, auth_json),
    ];
    match data_dir {
        Some(d) => seq![("KIRO_KV_PATH"@, d@ + "/kiro_server.kv"@)] + tail,
        None => tail,
    }
}

/// Assemble the worker's environment variables from the application data
/// directory and the serialized credential bundle.
pub fn build_env(data_dir: &Option<String>, auth_json: String) -> (r: Vec<(String, String)>)
    ensures
        env_view(r@) == spec_env(*data_dir, auth_json@),
{
    let mut env: Vec<(String, String)> = Vec::new();
    if let Some(d) = data_dir {
        let mut kv_path = d.clone();
        kv_path.append("/kiro_server.kv");
        env.push(("KIRO_KV_PATH".to_owned(), kv_path));
    }
    env.push(("PORT".to_owned(), "7860".to_owned()));
    env.push(("KIRO_CLIENT_TOKEN".to_owned(), "local-sidecar-token".to_owned()));
    env.push(("KIRO_AUTH_TOKEN".to_owned(), auth_json));
    proof {
        assert(env_view(env@) =~= spec_env(*data_dir, auth_json@));
    }
    env
}

} // verus!
