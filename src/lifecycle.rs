//! The record's account: creation at the canonical derived address, and
//! teardown that hands its balance back and frees the address.
use vstd::prelude::*;

use crate::identity::{
    decoded_address, find_program_address, opt_view, parse_identity, program_address,
    system_program_id, zero_identity, Identity,
};
use crate::registry::{ErrorCode, State, StateView};

verus! {

/// The only identity allowed to create the record, in base58.
pub const ADMIN_PUBKEY_STR: &'static str = "2LY2VTc5MjFW2wvJiMpuNZABWyScjfZw5pK8fXd9tPfp";

/// The label from which the record's address is derived: the ASCII bytes of
/// "state".
pub open spec fn state_seed() -> Seq<u8> {
    seq![0x73u8, 0x74u8, 0x61u8, 0x74u8, 0x65u8]
}

/// The bytes of the label from which the record's address is derived.
fn state_seed_bytes() -> (r: Vec<u8>)
    ensures
        r@ == state_seed(),
{
    let r: Vec<u8> = vec![0x73u8, 0x74u8, 0x61u8, 0x74u8, 0x65u8];
    proof {
        assert(r@ =~= state_seed());
    }
    r
}

/// A ledger account as the lifecycle operations see it: its address, the
/// program that owns it, its balance and, while it holds a record, the record.
#[derive(Clone, Debug)]
pub struct Account {
    pub key: Identity,
    pub owner: Identity,
    pub lamports: u64,
    pub data: Option<State>,
}

/// What an account holds, as plain values.
pub struct AccountView {
    pub key: Seq<u8>,
    pub owner: Seq<u8>,
    pub lamports: u64,
    pub data: Option<StateView>,
}

impl View for Account {
    type V = AccountView;

    open spec fn view(&self) -> AccountView {
        AccountView {
            key: self.key@,
            owner: self.owner@,
            lamports: self.lamports,
            data: match self.data {
                Some(s) => Some(s@),
                None => None,
            },
        }
    }
}

/// What `initialize` works on: the account meant to hold the record and the
/// signer that asks to become its admin.
#[derive(Clone, Debug)]
pub struct Initialize {
    pub state: Account,
    pub admin: Identity,
}

/// What `close_state` works on: the record's account and the account that
/// receives its balance.
#[derive(Clone, Debug)]
pub struct CloseState {
    pub state: Account,
    pub admin: Account,
}

/// The record's canonical address under `program`, if there is one.
pub open spec fn canonical_address(program: Seq<u8>) -> Option<Seq<u8>> {
    program_address(state_seed(), program)
}

/// The record's canonical address under `program_id`: derived from the label
/// and the program's identity, recomputed on each use rather than taken from
/// a caller.
pub fn canonical_state_address(program_id: &Identity) -> (r: Option<Identity>)
    ensures
        opt_view(r) == canonical_address(program_id@),
{
    let seed = state_seed_bytes();
    find_program_address(seed.as_slice(), program_id)
}

/// What `initialize` does to account `a` of program `program` when `caller`
/// creates the record with `v` as its one verifier.
pub open spec fn initialize_outcome(program: Seq<u8>, a: AccountView, caller: Seq<u8>, v: Seq<u8>) -> Result<AccountView, ErrorCode> {
    if canonical_address(program) != Some(a.key) {
        Err(ErrorCode::ConstraintSeeds)
    } else if a.owner != zero_identity() || a.data is Some {
        Err(ErrorCode::AccountInUse)
    } else {
        match decoded_address(ADMIN_PUBKEY_STR@) {
            None => Err(ErrorCode::InvalidAdminKey),
            Some(expected) => if caller != expected {
                Err(ErrorCode::UnauthorizedAdmin)
            } else {
                Ok(
                    AccountView {
                        key: a.key,
                        owner: program,
                        lamports: a.lamports,
                        data: Some(StateView { admin: expected, verifiers: seq![v] }),
                    },
                )
            },
        }
    }
}

/// What `close_state` does to the record's account `s` and the receiving
/// account `to`, for program `program`.
pub open spec fn close_outcome(program: Seq<u8>, s: AccountView, to: AccountView) -> Result<(AccountView, AccountView), ErrorCode> {
    if canonical_address(program) != Some(s.key) {
        Err(ErrorCode::UnauthorizedAdmin)
    } else if s.owner != program {
        Err(ErrorCode::UnauthorizedAdmin)
    } else if to.lamports + s.lamports > u64::MAX {
        Err(ErrorCode::InvalidAdminKey)
    } else {
        Ok(
            (
                AccountView { key: s.key, owner: zero_identity(), lamports: 0, data: None },
                AccountView {
                    key: to.key,
                    owner: to.owner,
                    lamports: (to.lamports + s.lamports) as u64,
                    data: to.data,
                },
            ),
        )
    }
}

/// Creates the record in `ctx.state`, with `ctx.admin` as admin and
/// `initial_verifier` as its one verifier. The account must sit at the
/// canonical address and be unused, and the signer must be the configured
/// admin. The account becomes owned by `program_id`; its balance, which the
/// runtime funds, is left as it is.
pub fn initialize(program_id: &Identity, ctx: &mut Initialize, initial_verifier: Identity) -> (r: Result<(), ErrorCode>)
    ensures
        final(ctx).admin == old(ctx).admin,
        match initialize_outcome(program_id@, old(ctx).state@, old(ctx).admin@, initial_verifier@) {
            Ok(a) => r is Ok && final(ctx).state@ == a,
            Err(e) => r == Err::<(), ErrorCode>(e) && final(ctx).state@ == old(ctx).state@,
        },
        r is Ok ==> (final(ctx).state.data matches Some(s) && s.wf()),
{
    match canonical_state_address(program_id) {
        Some(expected) => {
            if !ctx.state.key.same_as(&expected) {
                return Err(ErrorCode::ConstraintSeeds);
            }
        },
        None => {
            return Err(ErrorCode::ConstraintSeeds);
        },
    }
    let system = system_program_id();
    if !ctx.state.owner.same_as(&system) {
        return Err(ErrorCode::AccountInUse);
    }
    if ctx.state.data.is_some() {
        return Err(ErrorCode::AccountInUse);
    }
    let expected_admin = match parse_identity(ADMIN_PUBKEY_STR) {
        Some(a) => a,
        None => {
            return Err(ErrorCode::InvalidAdminKey);
        },
    };
    if !ctx.admin.same_as(&expected_admin) {
        return Err(ErrorCode::UnauthorizedAdmin);
    }
    let mut verifiers: Vec<Identity> = Vec::new();
    verifiers.push(initial_verifier);
    proof {
        assert(crate::registry::ids_view(verifiers@) =~= seq![initial_verifier@]);
    }
    ctx.state.owner = *program_id;
    ctx.state.data = Some(State { admin: expected_admin, verifiers });
    Ok(())
}

/// Deletes the record's account without reading its contents: checks that it
/// sits at the canonical address and is owned by `program_id`, then moves its
/// whole balance to `ctx.admin`, hands it to the system program and drops its
/// data, so that the address can be initialized afresh. Who signs is not
/// checked against the record's admin.
pub fn close_state(program_id: &Identity, ctx: &mut CloseState) -> (r: Result<(), ErrorCode>)
    ensures
        match close_outcome(program_id@, old(ctx).state@, old(ctx).admin@) {
            Ok((s, to)) => r is Ok && final(ctx).state@ == s && final(ctx).admin@ == to,
            Err(e) => r == Err::<(), ErrorCode>(e) && final(ctx).state@ == old(ctx).state@
                && final(ctx).admin@ == old(ctx).admin@,
        },
{
    match canonical_state_address(program_id) {
        Some(expected) => {
            if !ctx.state.key.same_as(&expected) {
                return Err(ErrorCode::UnauthorizedAdmin);
            }
        },
        None => {
            return Err(ErrorCode::UnauthorizedAdmin);
        },
    }
    if !ctx.state.owner.same_as(program_id) {
        return Err(ErrorCode::UnauthorizedAdmin);
    }
    let lamports = ctx.state.lamports;
    let total = match ctx.admin.lamports.checked_add(lamports) {
        Some(t) => t,
        None => {
            return Err(ErrorCode::InvalidAdminKey);
        },
    };
    ctx.state.lamports = 0;
    ctx.admin.lamports = total;
    ctx.state.owner = system_program_id();
    ctx.state.data = None;
    Ok(())
}

} // verus!
