use vstd::prelude::*;
use vstd::set_lib::{lemma_int_range, lemma_len_subset, lemma_map_size, set_int_range};
use vstd::string::StringExecFns;
use crate::text::push_char;
use crate::config::{AppConfig, ProviderView};

verus! {

/// The upper-case hexadecimal digit for `d` (below 16).
pub open spec fn hex_char(d: u32) -> char {
    if d < 10 {
        ((d + 48) as u8) as char
    } else {
        ((d + 55) as u8) as char
    }
}

/// The `i`-th of the eight hexadecimal digits of `n`, most significant first.
pub open spec fn nibble(n: u32, i: int) -> u32 {
    (n >> ((28 - 4 * i) as u32)) & 0xFu32
}

/// `n` written with exactly eight upper-case hexadecimal digits (`{:08X}`).
pub open spec fn hex8(n: u32) -> Seq<char> {
    Seq::new(8, |i: int| hex_char(nibble(n, i)))
}

pub open spec fn env_key_prefix() -> Seq<char> {
    "CXCM_KEY_"@
}

/// The environment variable name that the random value `n` gives.
pub open spec fn env_key_for(n: u32) -> Seq<char> {
    env_key_prefix() + hex8(n)
}

/// The `j`-th name tried when the random start is `r`.
pub open spec fn probe(r: u32, j: int) -> Seq<char> {
    env_key_for(((r as int + j) % 0x1_0000_0000) as u32)
}

pub open spec fn is_upper(c: char) -> bool {
    'A' <= c && c <= 'Z'
}

pub open spec fn is_digit(c: char) -> bool {
    '0' <= c && c <= '9'
}

/// The names `validate_env_key` accepts: a letter or `_` first, then letters,
/// digits and `_`, all upper case.
pub open spec fn valid_env_key(s: Seq<char>) -> bool {
    &&& s.len() > 0
    &&& (s[0] == '_' || is_upper(s[0]))
    &&& forall|i: int| 1 <= i < s.len() ==> (#[trigger] s[i] == '_' || is_upper(s[i]) || is_digit(s[i]))
}

proof fn lemma_hex_char(d: u32)
    requires
        d < 16,
    ensures
        is_upper(hex_char(d)) || is_digit(hex_char(d)),
        d < 10 ==> hex_char(d) as u32 == d + 48,
        d >= 10 ==> hex_char(d) as u32 == d + 55,
{
}

proof fn lemma_nibble_bound(n: u32, i: int)
    requires
        0 <= i < 8,
    ensures
        nibble(n, i) < 16,
{
    let s = (28 - 4 * i) as u32;
    assert((n >> s) & 0xFu32 < 16) by (bit_vector);
}

proof fn lemma_hex8_injective(a: u32, b: u32)
    requires
        hex8(a) == hex8(b),
    ensures
        a == b,
{
    assert forall|i: int| 0 <= i < 8 implies nibble(a, i) == nibble(b, i) by {
        lemma_nibble_bound(a, i);
        lemma_nibble_bound(b, i);
        assert(hex8(a)[i] == hex8(b)[i]);
        assert(hex8(a)[i] == hex_char(nibble(a, i)));
        assert(hex8(b)[i] == hex_char(nibble(b, i)));
        lemma_hex_char(nibble(a, i));
        lemma_hex_char(nibble(b, i));
        assert(hex_char(nibble(a, i)) as u32 == hex_char(nibble(b, i)) as u32);
    }
    assert(nibble(a, 0) == nibble(b, 0));
    assert(nibble(a, 1) == nibble(b, 1));
    assert(nibble(a, 2) == nibble(b, 2));
    assert(nibble(a, 3) == nibble(b, 3));
    assert(nibble(a, 4) == nibble(b, 4));
    assert(nibble(a, 5) == nibble(b, 5));
    assert(nibble(a, 6) == nibble(b, 6));
    assert(nibble(a, 7) == nibble(b, 7));
    assert(a == b) by (bit_vector)
        requires
            (a >> 28u32) & 0xFu32 == (b >> 28u32) & 0xFu32,
            (a >> 24u32) & 0xFu32 == (b >> 24u32) & 0xFu32,
            (a >> 20u32) & 0xFu32 == (b >> 20u32) & 0xFu32,
            (a >> 16u32) & 0xFu32 == (b >> 16u32) & 0xFu32,
            (a >> 12u32) & 0xFu32 == (b >> 12u32) & 0xFu32,
            (a >> 8u32) & 0xFu32 == (b >> 8u32) & 0xFu32,
            (a >> 4u32) & 0xFu32 == (b >> 4u32) & 0xFu32,
            (a >> 0u32) & 0xFu32 == (b >> 0u32) & 0xFu32,
    ;
}

/// Different random values give different names.
pub proof fn lemma_env_key_for_injective(a: u32, b: u32)
    requires
        env_key_for(a) == env_key_for(b),
    ensures
        a == b,
{
    let p = env_key_prefix();
    assert(env_key_for(a).subrange(p.len() as int, p.len() + 8int) =~= hex8(a));
    assert(env_key_for(b).subrange(p.len() as int, p.len() + 8int) =~= hex8(b));
    lemma_hex8_injective(a, b);
}

/// Every generated name is one that `validate_env_key` accepts, of 17 characters.
pub proof fn lemma_env_key_for_valid(n: u32)
    ensures
        valid_env_key(env_key_for(n)),
        env_key_for(n).len() == 17,
{
    reveal_strlit("CXCM_KEY_");
    let s = env_key_for(n);
    assert forall|i: int| 1 <= i < s.len() implies (#[trigger] s[i] == '_' || is_upper(s[i])
        || is_digit(s[i])) by {
        if i >= 9 {
            lemma_nibble_bound(n, i - 9);
            lemma_hex_char(nibble(n, i - 9));
            assert(s[i] == hex8(n)[i - 9]);
        }
    }
}

/// `n` in eight upper-case hexadecimal digits, after `CXCM_KEY_`.
pub fn env_key_candidate(n: u32) -> (s: String)
    ensures
        s@ == env_key_for(n),
{
    let mut s = String::from_str("CXCM_KEY_");
    let mut i: u32 = 0;
    while i < 8
        invariant
            i <= 8,
            s@ == env_key_prefix() + hex8(n).subrange(0, i as int),
        decreases 8 - i,
    {
        let d: u32 = (n >> (28 - 4 * i)) & 0xF;
        proof {
            lemma_nibble_bound(n, i as int);
            assert(d == nibble(n, i as int));
        }
        let c: char = if d < 10 {
            ((d + 48) as u8) as char
        } else {
            ((d + 55) as u8) as char
        };
        push_char(&mut s, c);
        assert(hex8(n).subrange(0, i + 1) =~= hex8(n).subrange(0, i as int).push(c));
        i = i + 1;
    }
    assert(hex8(n).subrange(0, 8) =~= hex8(n));
    s
}

/// Pigeonhole: if the first `k` probes from `r` are all among `used`, then
/// `used` has at least `k` names.
pub proof fn lemma_probes_fit(r: u32, k: int, used: Seq<Seq<char>>)
    requires
        0 <= k <= 0x1_0000_0000,
        forall|j: int| 0 <= j < k ==> used.contains(#[trigger] probe(r, j)),
    ensures
        k <= used.len(),
{
    let dom = set_int_range(0, k);
    let f = |j: int| probe(r, j);
    lemma_int_range(0, k);
    assert(vstd::relations::injective_on(f, dom)) by {
        assert forall|x: int, y: int| dom.contains(x) && dom.contains(y) && #[trigger] f(x) == #[trigger] f(
            y,
        ) implies x == y by {
            lemma_env_key_for_injective(
                ((r as int + x) % 0x1_0000_0000) as u32,
                ((r as int + y) % 0x1_0000_0000) as u32,
            );
        }
    }
    let img = dom.map(f);
    lemma_map_size(dom, img, f);
    assert(img.subset_of(used.to_set())) by {
        assert forall|s: Seq<char>| img.contains(s) implies used.to_set().contains(s) by {
            let j = choose|j: int| dom.contains(j) && f(j) == s;
            assert(used.contains(probe(r, j)));
        }
    }
    used.lemma_cardinality_of_set();
    lemma_len_subset(img, used.to_set());
}

} // verus!

verus! {

/// The environment variable names of the given providers, in order.
pub open spec fn env_keys(ps: Seq<ProviderView>) -> Seq<Seq<char>> {
    ps.map_values(|p: ProviderView| p.env_key)
}

/// `fastrand::u32(..)`: a value drawn from fastrand's thread-local generator
/// over the whole `u32` range. Nothing is stated of which value comes back.
#[verifier::external_body]
fn random_u32() -> (n: u32) {
    fastrand::u32(..)
}

/// Whether some provider already uses `key` as its environment variable.
pub fn env_key_in_use(config: &AppConfig, key: &String) -> (b: bool)
    ensures
        b == env_keys(config.providers.values()).contains(key@),
{
    let n = config.providers.len();
    let ghost ks = env_keys(config.providers.values());
    let mut i: usize = 0;
    while i < n
        invariant
            i <= n,
            n == config.providers.values().len(),
            n == config.providers.keys().len(),
            ks == env_keys(config.providers.values()),
            forall|j: int| 0 <= j < i ==> ks[j] != key@,
        decreases n - i,
    {
        if config.providers.value_at(i).env_key == *key {
            assert(ks[i as int] == key@);
            return true;
        }
        i = i + 1;
    }
    false
}

/// The first name, trying `start`, `start + 1`, ... (wrapping around), that no
/// provider uses yet.
pub fn free_env_key_from(config: &AppConfig, start: u32) -> (k: String)
    requires
        config.providers.values().len() < 0x1_0000_0000,
    ensures
        exists|j: int|
            0 <= j <= config.providers.values().len() && k@ == probe(start, j) && forall|t: int|
                0 <= t < j ==> env_keys(config.providers.values()).contains(#[trigger] probe(start, t)),
        !env_keys(config.providers.values()).contains(k@),
        exists|n: u32| k@ == env_key_for(n),
        valid_env_key(k@),
        k@.len() == 17,
{
    let count = config.providers.len();
    let ghost used = env_keys(config.providers.values());
    let mut j: u64 = 0;
    loop
        invariant
            j <= count,
            count == config.providers.values().len(),
            count < 0x1_0000_0000,
            used == env_keys(config.providers.values()),
            forall|t: int| 0 <= t < j ==> used.contains(#[trigger] probe(start, t)),
        decreases count - j,
    {
        let v: u32 = ((start as u64 + j) % 0x1_0000_0000) as u32;
        let candidate = env_key_candidate(v);
        assert(candidate@ == probe(start, j as int));
        if !env_key_in_use(config, &candidate) {
            proof {
                lemma_env_key_for_valid(v);
            }
            return candidate;
        }
        proof {
            lemma_probes_fit(start, j + 1, used);
        }
        j = j + 1;
    }
}

/// How many random names are drawn before the free names are searched in turn.
pub const MAX_DRAWS: u32 = 64;

/// The name that the random value `n` gives, when no provider uses it yet.
pub fn env_key_if_free(config: &AppConfig, n: u32) -> (r: Option<String>)
    ensures
        r is Some == !env_keys(config.providers.values()).contains(env_key_for(n)),
        r matches Some(k) ==> k@ == env_key_for(n),
{
    let candidate = env_key_candidate(n);
    if env_key_in_use(config, &candidate) {
        None
    } else {
        Some(candidate)
    }
}

/// A fresh `CXCM_KEY_XXXXXXXX` name that no provider uses yet. Random names
/// are drawn until one is free; after `MAX_DRAWS` taken names in a row (which
/// is only likely when nearly all 2^32 names are in use) the first free name
/// from one more random start is taken, so that the search ends. Which name
/// comes out depends on the random values.
pub fn generate_env_key(config: &AppConfig) -> (k: String)
    requires
        config.providers.values().len() < 0x1_0000_0000,
    ensures
        exists|n: u32| k@ == env_key_for(n),
        valid_env_key(k@),
        k@.len() == 17,
        !env_keys(config.providers.values()).contains(k@),
{
    let mut draws: u32 = 0;
    while draws < MAX_DRAWS
        invariant
            draws <= MAX_DRAWS,
        decreases MAX_DRAWS - draws,
    {
        let n = random_u32();
        match env_key_if_free(config, n) {
            Some(k) => {
                proof {
                    lemma_env_key_for_valid(n);
                }
                return k;
            },
            None => {},
        }
        draws = draws + 1;
    }
    free_env_key_from(config, random_u32())
}

} // verus!
