//! Properties that relate several operations on the registry.
use vstd::prelude::*;

use crate::identity::decoded_address;
use crate::lifecycle::{close_outcome, initialize_outcome, AccountView, ADMIN_PUBKEY_STR};
use crate::registry::{add_outcome, after, remove_first, remove_outcome, ErrorCode, State, StateView};

verus! {

/// Removing the first `v` from a list that lacks `v`, after appending `v`,
/// gives the list back.
proof fn lemma_remove_first_of_push(s: Seq<Seq<u8>>, v: Seq<u8>)
    requires
        !s.contains(v),
    ensures
        remove_first(s.push(v), v) == s,
    decreases s.len(),
{
    if s.len() == 0 {
        assert(s.push(v).drop_first() =~= s);
    } else {
        let t = s.drop_first();
        assert(s[0] != v) by {
            assert(s.contains(s[0]));
        }
        assert(!t.contains(v)) by {
            if t.contains(v) {
                let k = choose|k: int| 0 <= k < t.len() && t[k] == v;
                assert(s[k + 1] == v);
            }
        }
        lemma_remove_first_of_push(t, v);
        assert(s.push(v).drop_first() =~= t.push(v));
        assert(seq![s[0]] + t =~= s);
    }
}

/// Adding a verifier and then removing it, both successfully and by the same
/// admin, gives back the record as it was before the addition.
pub proof fn lemma_add_then_remove_restores(s: StateView, caller: Seq<u8>, v: Seq<u8>)
    requires
        s.wf(),
        add_outcome(s, caller, v) is Ok,
    ensures
        remove_outcome(add_outcome(s, caller, v)->Ok_0, caller, v) == Ok::<StateView, ErrorCode>(s),
{
    let t = add_outcome(s, caller, v)->Ok_0;
    assert(t.verifiers[s.verifiers.len() as int] == v);
    assert(t.verifiers.contains(v));
    lemma_remove_first_of_push(s.verifiers, v);
}

/// When the admin adds the same verifier twice in a row, and the first try
/// did not meet a full list, the second try fails with
/// `VerifierAlreadyExists` and leaves the record as the first one left it.
pub proof fn lemma_add_twice_fails(s: StateView, caller: Seq<u8>, v: Seq<u8>)
    requires
        s.wf(),
        caller == s.admin,
        s.verifiers.len() < State::MAX_VERIFIERS || s.verifiers.contains(v),
    ensures
        ({
            let first = after(s, add_outcome(s, caller, v));
            &&& add_outcome(first, caller, v) == Err::<StateView, ErrorCode>(
                ErrorCode::VerifierAlreadyExists,
            )
            &&& after(first, add_outcome(first, caller, v)) == first
        }),
{
    if !s.verifiers.contains(v) {
        let t = add_outcome(s, caller, v)->Ok_0;
        assert(t.verifiers[s.verifiers.len() as int] == v);
    }
}

/// When the admin removes a verifier that is not listed, the removal fails
/// with `VerifierNotFound` and the record stays as it was.
pub proof fn lemma_remove_absent_fails(s: StateView, caller: Seq<u8>, v: Seq<u8>)
    requires
        caller == s.admin,
        !s.verifiers.contains(v),
    ensures
        remove_outcome(s, caller, v) == Err::<StateView, ErrorCode>(ErrorCode::VerifierNotFound),
        after(s, remove_outcome(s, caller, v)) == s,
{
}

/// After a successful close, the configured admin can create the record again
/// at the same address: the new record has that admin and `v` as its only
/// verifier, whatever the account held before.
pub proof fn lemma_close_then_initialize(
    program: Seq<u8>,
    s: AccountView,
    to: AccountView,
    caller: Seq<u8>,
    v: Seq<u8>,
)
    requires
        close_outcome(program, s, to) is Ok,
        decoded_address(ADMIN_PUBKEY_STR@) == Some(caller),
    ensures
        initialize_outcome(program, (close_outcome(program, s, to)->Ok_0).0, caller, v)
            == Ok::<AccountView, ErrorCode>(
            AccountView {
                key: s.key,
                owner: program,
                lamports: 0,
                data: Some(StateView { admin: caller, verifiers: seq![v] }),
            },
        ),
{
}

} // verus!
