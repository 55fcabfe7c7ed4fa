use vstd::prelude::*;
use vstd::string::StringExecFns;
use crate::config::{ProviderConfig, ProviderView};
use crate::strmap::StrMap;
use crate::text::chars_of;

verus! {

/// How to start codex: the program, its arguments and extra environment.
#[derive(Debug)]
pub struct LaunchRequest {
    pub program: String,
    pub args: Vec<String>,
    pub env: StrMap<String>,
}

pub open spec fn texts(v: Seq<String>) -> Seq<Seq<char>> {
    v.map_values(|s: String| s@)
}

pub open spec fn starts_with(s: Seq<char>, prefix: Seq<char>) -> bool {
    prefix.len() <= s.len() && s.subrange(0, prefix.len() as int) == prefix
}

/// An argument by which the user picks the model: `-m`, `--model` or `--model=...`.
pub open spec fn is_model_flag(a: Seq<char>) -> bool {
    a == "-m"@ || a == "--model"@ || starts_with(a, "--model="@)
}

pub open spec fn user_specified_model(args: Seq<Seq<char>>) -> bool {
    exists|i: int| 0 <= i < args.len() && is_model_flag(#[trigger] args[i])
}

/// The `-c` overrides that point codex at the provider.
pub open spec fn override_args(p: ProviderView) -> Seq<Seq<char>> {
    seq![
        "-c"@,
        "model_provider=\"OpenAI\""@,
        "-c"@,
        "model_providers.OpenAI.base_url=\""@ + p.base_url + "\""@,
        "-c"@,
        "model_providers.OpenAI.env_key=\""@ + p.env_key + "\""@,
    ]
}

/// The provider's default model, unless the user chose one.
pub open spec fn model_args(p: ProviderView, args: Seq<Seq<char>>) -> Seq<Seq<char>> {
    if !user_specified_model(args) && p.model is Some {
        seq!["-m"@, p.model->0]
    } else {
        Seq::empty()
    }
}

/// All arguments given to codex: overrides, the default model, then the user's
/// arguments unchanged.
pub open spec fn launch_args(p: ProviderView, args: Seq<Seq<char>>) -> Seq<Seq<char>> {
    override_args(p) + model_args(p, args) + args
}

fn has_prefix(s: &str, prefix: &str) -> (b: bool)
    ensures
        b == starts_with(s@, prefix@),
{
    let x = chars_of(s);
    let y = chars_of(prefix);
    if y.len() > x.len() {
        return false;
    }
    let mut i: usize = 0;
    while i < y.len()
        invariant
            x@ == s@,
            y@ == prefix@,
            y@.len() <= x@.len(),
            i <= y@.len(),
            forall|j: int| 0 <= j < i ==> x@[j] == y@[j],
        decreases y@.len() - i,
    {
        if x[i] != y[i] {
            assert(s@.subrange(0, prefix@.len() as int)[i as int] != prefix@[i as int]);
            return false;
        }
        i = i + 1;
    }
    assert(s@.subrange(0, prefix@.len() as int) =~= prefix@);
    true
}

fn model_flag(a: &String) -> (b: bool)
    ensures
        b == is_model_flag(a@),
{
    *a == String::from_str("-m") || *a == String::from_str("--model") || has_prefix(
        a.as_str(),
        "--model=",
    )
}

fn any_model_flag(args: &Vec<String>) -> (b: bool)
    ensures
        b == user_specified_model(texts(args@)),
{
    let mut i: usize = 0;
    while i < args.len()
        invariant
            i <= args@.len(),
            forall|j: int| 0 <= j < i ==> !is_model_flag(#[trigger] texts(args@)[j]),
        decreases args@.len() - i,
    {
        if model_flag(&args[i]) {
            assert(is_model_flag(texts(args@)[i as int]));
            return true;
        }
        i = i + 1;
    }
    false
}

/// `r` is the codex invocation for provider `p` with user arguments `args`.
pub open spec fn is_launch_for(r: LaunchRequest, p: ProviderView, args: Seq<Seq<char>>) -> bool {
    &&& r.program@ == "codex"@
    &&& texts(r.args@) == launch_args(p, args)
    &&& r.env.as_map() == Map::<Seq<char>, Seq<char>>::empty().insert(p.env_key, p.api_key)
    &&& r.env.keys().len() == 1
}

/// The codex invocation for `provider`: `-c` overrides for its endpoint and
/// key variable, its default model unless the user passed one, the user's
/// arguments last, and the API key in the named environment variable.
pub fn build_launch_request(provider: &ProviderConfig, passthrough_args: Vec<String>) -> (r:
    LaunchRequest)
    ensures
        is_launch_for(r, provider@, texts(passthrough_args@)),
{
    let ghost pass = texts(passthrough_args@);
    let mut args: Vec<String> = Vec::new();
    args.push(String::from_str("-c"));
    args.push(String::from_str("model_provider=\"OpenAI\""));
    args.push(String::from_str("-c"));
    args.push(
        String::from_str("model_providers.OpenAI.base_url=\"").concat(
            provider.base_url.as_str(),
        ).concat("\""),
    );
    args.push(String::from_str("-c"));
    args.push(
        String::from_str("model_providers.OpenAI.env_key=\"").concat(
            provider.env_key.as_str(),
        ).concat("\""),
    );
    assert(texts(args@) =~= override_args(provider@));
    let user_specified_model = any_model_flag(&passthrough_args);
    if !user_specified_model {
        if let Some(model) = &provider.model {
            args.push(String::from_str("-m"));
            args.push(model.clone());
        }
    }
    assert(texts(args@) =~= override_args(provider@) + model_args(provider@, pass));
    let ghost before = args@;
    let mut i: usize = 0;
    while i < passthrough_args.len()
        invariant
            i <= passthrough_args@.len(),
            pass == texts(passthrough_args@),
            texts(args@) == texts(before) + pass.subrange(0, i as int),
        decreases passthrough_args@.len() - i,
    {
        let a = passthrough_args[i].clone();
        let ghost prev = args@;
        args.push(a);
        assert(texts(args@) =~= texts(prev).push(pass[i as int]));
        assert(texts(args@) =~= texts(before) + pass.subrange(0, i + 1));
        i = i + 1;
    }
    assert(pass.subrange(0, pass.len() as int) =~= pass);
    let mut env: StrMap<String> = StrMap::new();
    env.insert(provider.env_key.clone(), provider.api_key.clone());
    assert(env.as_map() =~= Map::<Seq<char>, Seq<char>>::empty().insert(
        provider.env_key@,
        provider.api_key@,
    ));
    LaunchRequest { program: String::from_str("codex"), args, env }
}

} // verus!
