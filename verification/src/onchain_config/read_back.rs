//! Reading encoded configuration back: the bytes determine what was encoded.
//!
//! Each encoding says by itself where it ends. So where two of them stand in front of
//! bytes that are the same all together, the two are the same, and so is what follows.

use vstd::prelude::*;

use super::api;
use super::api::{
    FixedPoint64, MetadataView, RandomnessConfigData, SessionView, StateView, ValidatorView,
};

verus! {

/// Whether the address of every validator has its full length.
pub open spec fn full_addresses(validators: Seq<ValidatorView>) -> bool {
    forall|i: int| 0 <= i < validators.len() ==> (#[trigger] validators[i]).addr.len() == 32
}

/// Whether the address of every validator of a session has its full length.
pub open spec fn full_session_addresses(session: Option<SessionView>) -> bool {
    session matches Some(s) ==> {
        &&& full_addresses(s.metadata.dealer_validator_set)
        &&& full_addresses(s.metadata.target_validator_set)
    }
}

/// Whether the address of every validator of a state has its full length.
pub open spec fn full_state_addresses(state: StateView) -> bool {
    full_session_addresses(state.last_completed) && full_session_addresses(state.in_progress)
}

/// Two beginnings of the same length are the same, and so is what follows.
proof fn lemma_split(a: Seq<u8>, b: Seq<u8>, s: Seq<u8>, t: Seq<u8>)
    requires
        a.len() == b.len(),
        a + s == b + t,
    ensures
        a == b,
        s == t,
{
    assert(a =~= (a + s).take(a.len() as int));
    assert(b =~= (b + t).take(a.len() as int));
    assert(s =~= (a + s).skip(a.len() as int));
    assert(t =~= (b + t).skip(a.len() as int));
}

proof fn lemma_le_bytes_len(n: nat, len: nat)
    ensures
        api::le_bytes(n, len).len() == len,
    decreases len,
{
    if len > 0 {
        lemma_le_bytes_len(n / 256, (len - 1) as nat);
    }
}

proof fn lemma_le_bytes_same(n: nat, m: nat, len: nat)
    requires
        n < vstd::arithmetic::power::pow(256, len),
        m < vstd::arithmetic::power::pow(256, len),
        api::le_bytes(n, len) == api::le_bytes(m, len),
    ensures
        n == m,
    decreases len,
{
    reveal(vstd::arithmetic::power::pow);
    if len > 0 {
        let rest = (len - 1) as nat;
        let p = vstd::arithmetic::power::pow(256, rest);
        assert(vstd::arithmetic::power::pow(256, len) == 256 * p);
        lemma_split(
            seq![(n % 256) as u8],
            seq![(m % 256) as u8],
            api::le_bytes(n / 256, rest),
            api::le_bytes(m / 256, rest),
        );
        assert(seq![(n % 256) as u8][0] == seq![(m % 256) as u8][0]);
        assert(n % 256 == m % 256);
        lemma_le_bytes_same(n / 256, m / 256, rest);
    }
}

proof fn lemma_u64_prefix(n: u64, m: u64, s: Seq<u8>, t: Seq<u8>)
    requires
        api::le_bytes(n as nat, 8) + s == api::le_bytes(m as nat, 8) + t,
    ensures
        n == m,
        s == t,
{
    lemma_le_bytes_len(n as nat, 8);
    lemma_le_bytes_len(m as nat, 8);
    lemma_split(api::le_bytes(n as nat, 8), api::le_bytes(m as nat, 8), s, t);
    reveal_with_fuel(vstd::arithmetic::power::pow, 9);
    lemma_le_bytes_same(n as nat, m as nat, 8);
}

proof fn lemma_fixed_point_prefix(a: FixedPoint64, b: FixedPoint64, s: Seq<u8>, t: Seq<u8>)
    requires
        api::encoded_fixed_point(a) + s == api::encoded_fixed_point(b) + t,
    ensures
        a == b,
        s == t,
{
    lemma_le_bytes_len(a.value as nat, 16);
    lemma_le_bytes_len(b.value as nat, 16);
    lemma_split(api::encoded_fixed_point(a), api::encoded_fixed_point(b), s, t);
    reveal_with_fuel(vstd::arithmetic::power::pow, 17);
    lemma_le_bytes_same(a.value as nat, b.value as nat, 16);
}

proof fn lemma_len_prefix(n: nat, m: nat, s: Seq<u8>, t: Seq<u8>)
    requires
        api::encoded_len(n) + s == api::encoded_len(m) + t,
    ensures
        n == m,
        s == t,
    decreases n,
{
    let (first_n, first_m) = ((api::encoded_len(n) + s)[0], (api::encoded_len(m) + t)[0]);
    assert(first_n == api::encoded_len(n)[0]);
    assert(first_m == api::encoded_len(m)[0]);
    if n < 128 {
        assert(m < 128);
        lemma_split(api::encoded_len(n), api::encoded_len(m), s, t);
    } else {
        assert(m >= 128);
        let a = seq![(n % 128 + 128) as u8];
        let b = seq![(m % 128 + 128) as u8];
        assert(api::encoded_len(n) + s =~= a + (api::encoded_len(n / 128) + s));
        assert(api::encoded_len(m) + t =~= b + (api::encoded_len(m / 128) + t));
        lemma_split(a, b, api::encoded_len(n / 128) + s, api::encoded_len(m / 128) + t);
        assert(a[0] == b[0]);
        lemma_len_prefix(n / 128, m / 128, s, t);
    }
}

proof fn lemma_byte_list_prefix(a: Seq<u8>, b: Seq<u8>, s: Seq<u8>, t: Seq<u8>)
    requires
        api::encoded_byte_list(a) + s == api::encoded_byte_list(b) + t,
    ensures
        a == b,
        s == t,
{
    assert(api::encoded_byte_list(a) + s =~= api::encoded_len(a.len()) + (a + s));
    assert(api::encoded_byte_list(b) + t =~= api::encoded_len(b.len()) + (b + t));
    lemma_len_prefix(a.len(), b.len(), a + s, b + t);
    lemma_split(a, b, s, t);
}

/// The encoding of a configuration with `s` behind it, taken apart from the front.
spec fn config_parts(config: RandomnessConfigData, s: Seq<u8>) -> Seq<u8> {
    seq![api::variant_index(config.variant)] + (api::encoded_fixed_point(
        config.config_v1.secrecy_threshold,
    ) + (api::encoded_fixed_point(config.config_v1.reconstruction_threshold) + (
    api::encoded_fixed_point(config.config_v2.secrecy_threshold) + (api::encoded_fixed_point(
        config.config_v2.reconstruction_threshold,
    ) + (api::encoded_fixed_point(config.config_v2.fast_path_secrecy_threshold) + s)))))
}

proof fn lemma_config_prefix(a: RandomnessConfigData, b: RandomnessConfigData, s: Seq<u8>, t: Seq<u8>)
    requires
        api::encoded_config(a) + s == api::encoded_config(b) + t,
    ensures
        a == b,
        s == t,
{
    assert(api::encoded_config(a) + s =~= config_parts(a, s));
    assert(api::encoded_config(b) + t =~= config_parts(b, t));
    let f = |x: FixedPoint64| api::encoded_fixed_point(x);
    let a5 = f(a.config_v2.fast_path_secrecy_threshold) + s;
    let b5 = f(b.config_v2.fast_path_secrecy_threshold) + t;
    let a4 = f(a.config_v2.reconstruction_threshold) + a5;
    let b4 = f(b.config_v2.reconstruction_threshold) + b5;
    let a3 = f(a.config_v2.secrecy_threshold) + a4;
    let b3 = f(b.config_v2.secrecy_threshold) + b4;
    let a2 = f(a.config_v1.reconstruction_threshold) + a3;
    let b2 = f(b.config_v1.reconstruction_threshold) + b3;
    let a1 = f(a.config_v1.secrecy_threshold) + a2;
    let b1 = f(b.config_v1.secrecy_threshold) + b2;
    let (va, vb) = (seq![api::variant_index(a.variant)], seq![api::variant_index(b.variant)]);
    lemma_split(va, vb, a1, b1);
    assert(va[0] == vb[0]);
    lemma_fixed_point_prefix(a.config_v1.secrecy_threshold, b.config_v1.secrecy_threshold, a2, b2);
    lemma_fixed_point_prefix(
        a.config_v1.reconstruction_threshold,
        b.config_v1.reconstruction_threshold,
        a3,
        b3,
    );
    lemma_fixed_point_prefix(a.config_v2.secrecy_threshold, b.config_v2.secrecy_threshold, a4, b4);
    lemma_fixed_point_prefix(
        a.config_v2.reconstruction_threshold,
        b.config_v2.reconstruction_threshold,
        a5,
        b5,
    );
    lemma_fixed_point_prefix(
        a.config_v2.fast_path_secrecy_threshold,
        b.config_v2.fast_path_secrecy_threshold,
        s,
        t,
    );
}

proof fn lemma_validator_prefix(a: ValidatorView, b: ValidatorView, s: Seq<u8>, t: Seq<u8>)
    requires
        a.addr.len() == 32,
        b.addr.len() == 32,
        api::encoded_validator(a) + s == api::encoded_validator(b) + t,
    ensures
        a == b,
        s == t,
{
    let a2 = api::le_bytes(a.voting_power as nat, 8) + s;
    let b2 = api::le_bytes(b.voting_power as nat, 8) + t;
    let a1 = api::encoded_byte_list(a.pk_bytes) + a2;
    let b1 = api::encoded_byte_list(b.pk_bytes) + b2;
    assert(api::encoded_validator(a) + s =~= a.addr + a1);
    assert(api::encoded_validator(b) + t =~= b.addr + b1);
    lemma_split(a.addr, b.addr, a1, b1);
    lemma_byte_list_prefix(a.pk_bytes, b.pk_bytes, a2, b2);
    lemma_u64_prefix(a.voting_power, b.voting_power, s, t);
}

proof fn lemma_validators_prefix(
    a: Seq<ValidatorView>,
    b: Seq<ValidatorView>,
    s: Seq<u8>,
    t: Seq<u8>,
)
    requires
        a.len() == b.len(),
        full_addresses(a),
        full_addresses(b),
        api::encoded_validators(a) + s == api::encoded_validators(b) + t,
    ensures
        a == b,
        s == t,
    decreases a.len(),
{
    if a.len() == 0 {
        assert(a =~= b);
        assert(api::encoded_validators(a) + s =~= s);
        assert(api::encoded_validators(b) + t =~= t);
    } else {
        let (ra, rb) = (a.drop_first(), b.drop_first());
        assert(full_addresses(ra)) by {
            assert forall|i: int| 0 <= i < ra.len() implies (#[trigger] ra[i]).addr.len() == 32 by {
                assert(ra[i] == a[i + 1]);
            }
        }
        assert(full_addresses(rb)) by {
            assert forall|i: int| 0 <= i < rb.len() implies (#[trigger] rb[i]).addr.len() == 32 by {
                assert(rb[i] == b[i + 1]);
            }
        }
        let sa = api::encoded_validators(ra) + s;
        let sb = api::encoded_validators(rb) + t;
        assert(api::encoded_validators(a) + s =~= api::encoded_validator(a[0]) + sa);
        assert(api::encoded_validators(b) + t =~= api::encoded_validator(b[0]) + sb);
        lemma_validator_prefix(a[0], b[0], sa, sb);
        lemma_validators_prefix(ra, rb, s, t);
        assert forall|i: int| 0 <= i < a.len() implies a[i] == b[i] by {
            if i > 0 {
                assert(ra[i - 1] == a[i]);
                assert(rb[i - 1] == b[i]);
            }
        }
        assert(a =~= b);
    }
}

/// A list of validators with its length in front.
spec fn counted(validators: Seq<ValidatorView>) -> Seq<u8> {
    api::encoded_len(validators.len()) + api::encoded_validators(validators)
}

proof fn lemma_counted_prefix(
    a: Seq<ValidatorView>,
    b: Seq<ValidatorView>,
    s: Seq<u8>,
    t: Seq<u8>,
)
    requires
        full_addresses(a),
        full_addresses(b),
        counted(a) + s == counted(b) + t,
    ensures
        a == b,
        s == t,
{
    let sa = api::encoded_validators(a) + s;
    let sb = api::encoded_validators(b) + t;
    assert(counted(a) + s =~= api::encoded_len(a.len()) + sa);
    assert(counted(b) + t =~= api::encoded_len(b.len()) + sb);
    lemma_len_prefix(a.len(), b.len(), sa, sb);
    lemma_validators_prefix(a, b, s, t);
}

proof fn lemma_metadata_prefix(a: MetadataView, b: MetadataView, s: Seq<u8>, t: Seq<u8>)
    requires
        full_addresses(a.dealer_validator_set),
        full_addresses(a.target_validator_set),
        full_addresses(b.dealer_validator_set),
        full_addresses(b.target_validator_set),
        api::encoded_metadata(a) + s == api::encoded_metadata(b) + t,
    ensures
        a == b,
        s == t,
{
    let a3 = counted(a.target_validator_set) + s;
    let b3 = counted(b.target_validator_set) + t;
    let a2 = counted(a.dealer_validator_set) + a3;
    let b2 = counted(b.dealer_validator_set) + b3;
    let a1 = api::encoded_config(a.randomness_config) + a2;
    let b1 = api::encoded_config(b.randomness_config) + b2;
    assert(api::encoded_metadata(a) + s =~= api::le_bytes(a.dealer_epoch as nat, 8) + a1);
    assert(api::encoded_metadata(b) + t =~= api::le_bytes(b.dealer_epoch as nat, 8) + b1);
    lemma_u64_prefix(a.dealer_epoch, b.dealer_epoch, a1, b1);
    lemma_config_prefix(a.randomness_config, b.randomness_config, a2, b2);
    lemma_counted_prefix(a.dealer_validator_set, b.dealer_validator_set, a3, b3);
    lemma_counted_prefix(a.target_validator_set, b.target_validator_set, s, t);
}

proof fn lemma_session_prefix(
    a: Option<SessionView>,
    b: Option<SessionView>,
    s: Seq<u8>,
    t: Seq<u8>,
)
    requires
        full_session_addresses(a),
        full_session_addresses(b),
        api::encoded_session(a) + s == api::encoded_session(b) + t,
    ensures
        a == b,
        s == t,
{
    assert((api::encoded_session(a) + s)[0] == api::encoded_session(a)[0]);
    assert((api::encoded_session(b) + t)[0] == api::encoded_session(b)[0]);
    match (a, b) {
        (None, None) => {
            lemma_split(seq![0u8], seq![0u8], s, t);
        },
        (Some(x), Some(y)) => {
            let x3 = api::encoded_byte_list(x.transcript) + s;
            let y3 = api::encoded_byte_list(y.transcript) + t;
            let x2 = api::le_bytes(x.start_time_us as nat, 8) + x3;
            let y2 = api::le_bytes(y.start_time_us as nat, 8) + y3;
            let x1 = api::encoded_metadata(x.metadata) + x2;
            let y1 = api::encoded_metadata(y.metadata) + y2;
            assert(api::encoded_session(a) + s =~= seq![1u8] + x1);
            assert(api::encoded_session(b) + t =~= seq![1u8] + y1);
            lemma_split(seq![1u8], seq![1u8], x1, y1);
            lemma_metadata_prefix(x.metadata, y.metadata, x2, y2);
            lemma_u64_prefix(x.start_time_us, y.start_time_us, x3, y3);
            lemma_byte_list_prefix(x.transcript, y.transcript, s, t);
        },
        _ => {},
    }
}

/// The encoding of a randomness configuration determines the configuration.
pub proof fn law_config_reads_back(a: RandomnessConfigData, b: RandomnessConfigData)
    requires
        api::encoded_config(a) == api::encoded_config(b),
    ensures
        a == b,
{
    lemma_config_prefix(a, b, Seq::empty(), Seq::empty());
}

/// The state of distributed key generation that `bytes` are the encoding of, if there is one.
pub open spec fn decoded_state(bytes: Seq<u8>) -> Option<StateView> {
    if exists|state: StateView| #[trigger] is_encoding(state, bytes) {
        Some(choose|state: StateView| #[trigger] is_encoding(state, bytes))
    } else {
        None
    }
}

/// Whether `bytes` are the encoding of `state`.
pub open spec fn is_encoding(state: StateView, bytes: Seq<u8>) -> bool {
    full_state_addresses(state) && api::encoded_state(state) == bytes
}

/// What is read out of the encoding of a state of distributed key generation is that state.
pub proof fn law_state_reads_back(state: StateView)
    requires
        full_state_addresses(state),
    ensures
        decoded_state(api::encoded_state(state)) == Some(state),
{
    let bytes = api::encoded_state(state);
    assert(is_encoding(state, bytes));
    let found = choose|s: StateView| #[trigger] is_encoding(s, bytes);
    law_encodings_differ(state, found);
}

/// The encoding of a state of distributed key generation determines the state.
pub proof fn law_encodings_differ(a: StateView, b: StateView)
    requires
        full_state_addresses(a),
        full_state_addresses(b),
        api::encoded_state(a) == api::encoded_state(b),
    ensures
        a == b,
{
    lemma_session_prefix(
        a.last_completed,
        b.last_completed,
        api::encoded_session(a.in_progress),
        api::encoded_session(b.in_progress),
    );
    let none = Seq::<u8>::empty();
    assert(api::encoded_session(a.in_progress) + none =~= api::encoded_session(a.in_progress));
    assert(api::encoded_session(b.in_progress) + none =~= api::encoded_session(b.in_progress));
    lemma_session_prefix(a.in_progress, b.in_progress, none, none);
}

} // verus!
