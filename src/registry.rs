//! The registry record, its admin-gated verifier list, and the authorization
//! gate for certificate issuance.
use vstd::prelude::*;

use crate::identity::Identity;

verus! {

/// Why an operation was rejected. A rejected operation changes nothing.
#[derive(Clone, Copy, Debug, PartialEq, Eq, Structural)]
pub enum ErrorCode {
    /// The caller is not in the verifier list.
    UnauthorizedVerifier,
    /// The caller is not the required admin, or the record's account is not
    /// the canonical one owned by this program.
    UnauthorizedAdmin,
    /// The verifier is already in the list.
    VerifierAlreadyExists,
    /// The verifier is not in the list.
    VerifierNotFound,
    /// The configured admin key does not parse as an identity.
    InvalidAdminKey,
    /// The verifier list is full.
    CapacityExceeded,
    /// The account offered for creation is not at the canonical address.
    ConstraintSeeds,
    /// The account offered for creation is already in use.
    AccountInUse,
}

/// The text that describes error `e`.
pub open spec fn error_message(e: ErrorCode) -> Seq<char> {
    match e {
        ErrorCode::UnauthorizedVerifier => "Caller is not authorized verifier."@,
        ErrorCode::UnauthorizedAdmin => "Caller is not authorized admin."@,
        ErrorCode::VerifierAlreadyExists => "Verifier already exists in the list."@,
        ErrorCode::VerifierNotFound => "Verifier not found in the list."@,
        ErrorCode::InvalidAdminKey => "Invalid admin public key string."@,
        ErrorCode::CapacityExceeded => "Verifier list is full."@,
        ErrorCode::ConstraintSeeds => "Account is not at the canonical address."@,
        ErrorCode::AccountInUse => "Account is already in use."@,
    }
}

impl ErrorCode {
    /// A sentence that describes the error.
    pub fn message(&self) -> (r: &'static str)
        ensures
            r@ == error_message(*self),
    {
        match self {
            ErrorCode::UnauthorizedVerifier => "Caller is not authorized verifier.",
            ErrorCode::UnauthorizedAdmin => "Caller is not authorized admin.",
            ErrorCode::VerifierAlreadyExists => "Verifier already exists in the list.",
            ErrorCode::VerifierNotFound => "Verifier not found in the list.",
            ErrorCode::InvalidAdminKey => "Invalid admin public key string.",
            ErrorCode::CapacityExceeded => "Verifier list is full.",
            ErrorCode::ConstraintSeeds => "Account is not at the canonical address.",
            ErrorCode::AccountInUse => "Account is already in use.",
        }
    }
}

/// The persisted registry record.
#[derive(Clone, Debug)]
pub struct State {
    pub admin: Identity,
    pub verifiers: Vec<Identity>,
}

/// What a record holds: the admin's bytes and the verifiers' bytes, in order.
pub struct StateView {
    pub admin: Seq<u8>,
    pub verifiers: Seq<Seq<u8>>,
}

/// The bytes of each identity of `s`, in order.
pub open spec fn ids_view(s: Seq<Identity>) -> Seq<Seq<u8>> {
    s.map_values(|i: Identity| i@)
}

impl View for State {
    type V = StateView;

    open spec fn view(&self) -> StateView {
        StateView { admin: self.admin@, verifiers: ids_view(self.verifiers@) }
    }
}

impl StateView {
    /// The record's invariant: no verifier twice, at most `MAX_VERIFIERS` of them.
    pub open spec fn wf(self) -> bool {
        &&& self.verifiers.len() <= State::MAX_VERIFIERS
        &&& self.verifiers.no_duplicates()
    }
}

impl State {
    /// Most verifiers a record can hold.
    pub const MAX_VERIFIERS: usize = 100;

    /// Bytes of storage that a record's account is given: an 8-byte header,
    /// the admin, the list's length prefix and every verifier slot.
    pub const SIZE: usize = 8 + 32 + 4 + 32 * State::MAX_VERIFIERS;

    pub open spec fn wf(&self) -> bool {
        self@.wf()
    }

    /// Whether the record meets its invariant.
    pub fn is_well_formed(&self) -> (r: bool)
        ensures
            r == self.wf(),
    {
        let n = self.verifiers.len();
        if n > State::MAX_VERIFIERS {
            return false;
        }
        let mut i: usize = 0;
        while i < n
            invariant
                n == self.verifiers@.len(),
                i <= n,
                forall|a: int, b: int|
                    0 <= a < b < n && a < i ==> self@.verifiers[a] != self@.verifiers[b],
            decreases n - i,
        {
            let mut j: usize = i + 1;
            while j < n
                invariant
                    n == self.verifiers@.len(),
                    i < n,
                    i < j <= n,
                    forall|a: int, b: int|
                        0 <= a < b < n && a < i ==> self@.verifiers[a] != self@.verifiers[b],
                    forall|b: int| i < b < j ==> self@.verifiers[i as int] != self@.verifiers[b],
                decreases n - j,
            {
                if self.verifiers[i].same_as(&self.verifiers[j]) {
                    proof {
                        let vs = self@.verifiers;
                        assert(vs[i as int] == vs[j as int]);
                        assert(!vs.no_duplicates());
                    }
                    return false;
                }
                j = j + 1;
            }
            i = i + 1;
        }
        true
    }

    /// Whether `id` is in the verifier list.
    pub fn is_verifier(&self, id: &Identity) -> (r: bool)
        ensures
            r == self@.verifiers.contains(id@),
    {
        match position_of(&self.verifiers, id) {
            Some(_) => true,
            None => false,
        }
    }
}

/// What `add_verifier` does to a record when `caller` asks to add `v`.
pub open spec fn add_outcome(s: StateView, caller: Seq<u8>, v: Seq<u8>) -> Result<StateView, ErrorCode> {
    if caller != s.admin {
        Err(ErrorCode::UnauthorizedAdmin)
    } else if s.verifiers.contains(v) {
        Err(ErrorCode::VerifierAlreadyExists)
    } else if s.verifiers.len() >= State::MAX_VERIFIERS {
        Err(ErrorCode::CapacityExceeded)
    } else {
        Ok(StateView { admin: s.admin, verifiers: s.verifiers.push(v) })
    }
}

/// `s` without its first occurrence of `v`; later entries move up by one.
pub open spec fn remove_first(s: Seq<Seq<u8>>, v: Seq<u8>) -> Seq<Seq<u8>>
    decreases s.len(),
{
    if s.len() == 0 {
        s
    } else if s[0] == v {
        s.drop_first()
    } else {
        seq![s[0]] + remove_first(s.drop_first(), v)
    }
}

/// What `remove_verifier` does to a record when `caller` asks to remove `v`.
pub open spec fn remove_outcome(s: StateView, caller: Seq<u8>, v: Seq<u8>) -> Result<StateView, ErrorCode> {
    if caller != s.admin {
        Err(ErrorCode::UnauthorizedAdmin)
    } else if !s.verifiers.contains(v) {
        Err(ErrorCode::VerifierNotFound)
    } else {
        Ok(StateView { admin: s.admin, verifiers: remove_first(s.verifiers, v) })
    }
}

/// The record after an operation with outcome `r` on `s`: unchanged on failure.
pub open spec fn after(s: StateView, r: Result<StateView, ErrorCode>) -> StateView {
    match r {
        Ok(t) => t,
        Err(_) => s,
    }
}

/// Removing the entry at `i`, where `v` first occurs, is removing the first `v`.
proof fn lemma_remove_first_at(s: Seq<Seq<u8>>, v: Seq<u8>, i: int)
    requires
        0 <= i < s.len(),
        s[i] == v,
        forall|j: int| 0 <= j < i ==> s[j] != v,
    ensures
        remove_first(s, v) == s.remove(i),
    decreases i,
{
    if i == 0 {
        assert(s.drop_first() =~= s.remove(0));
    } else {
        let t = s.drop_first();
        assert forall|j: int| 0 <= j < i - 1 implies t[j] != v by {
            assert(t[j] == s[j + 1]);
        }
        lemma_remove_first_at(t, v, i - 1);
        assert(seq![s[0]] + t.remove(i - 1) =~= s.remove(i));
    }
}

/// Announced when a verifier joins the list.
#[derive(Clone, Copy, Debug)]
pub struct VerifierAdded {
    pub admin: Identity,
    pub verifier: Identity,
    pub timestamp: i64,
}

/// Announced when a verifier leaves the list.
#[derive(Clone, Copy, Debug)]
pub struct VerifierRemoved {
    pub admin: Identity,
    pub verifier: Identity,
    pub timestamp: i64,
}

/// Announced when a verifier certifies an item for its owner.
#[derive(Clone, Debug)]
pub struct AuthNftMinted {
    pub verifier: Identity,
    pub owner: Identity,
    pub product_id: String,
    pub brand: String,
    pub category: String,
    pub metadata_uri: String,
    pub timestamp: i64,
}

/// What `add_verifier` works on: the record and the signer acting as admin.
#[derive(Clone, Debug)]
pub struct AddVerifier {
    pub state: State,
    pub admin: Identity,
}

/// What `remove_verifier` works on: the record and the signer acting as admin.
#[derive(Clone, Debug)]
pub struct RemoveVerifier {
    pub state: State,
    pub admin: Identity,
}

/// What `mint_auth_nft` works on: the record, the signing verifier and the
/// owner the certificate is meant for.
#[derive(Clone, Debug)]
pub struct MintAuthNft {
    pub state: State,
    pub verifier: Identity,
    pub owner: Identity,
}

/// Appends `verifier` to the list, if the signer is the record's admin, the
/// verifier is not yet listed and the list has room; returns the event to
/// announce, stamped with `timestamp`.
pub fn add_verifier(ctx: &mut AddVerifier, verifier: Identity, timestamp: i64) -> (r: Result<VerifierAdded, ErrorCode>)
    requires
        old(ctx).state.wf(),
    ensures
        final(ctx).admin == old(ctx).admin,
        final(ctx).state.wf(),
        final(ctx).state@ == after(old(ctx).state@, add_outcome(old(ctx).state@, old(ctx).admin@, verifier@)),
        match add_outcome(old(ctx).state@, old(ctx).admin@, verifier@) {
            Ok(_) => r == Ok::<VerifierAdded, ErrorCode>(
                VerifierAdded { admin: old(ctx).admin, verifier, timestamp },
            ),
            Err(e) => r == Err::<VerifierAdded, ErrorCode>(e),
        },
{
    if !ctx.admin.same_as(&ctx.state.admin) {
        return Err(ErrorCode::UnauthorizedAdmin);
    }
    if ctx.state.is_verifier(&verifier) {
        return Err(ErrorCode::VerifierAlreadyExists);
    }
    if ctx.state.verifiers.len() >= State::MAX_VERIFIERS {
        return Err(ErrorCode::CapacityExceeded);
    }
    let ghost before = ctx.state.verifiers@;
    ctx.state.verifiers.push(verifier);
    proof {
        let vs = ids_view(before);
        assert(ids_view(ctx.state.verifiers@) =~= vs.push(verifier@));
        assert forall|a: int, b: int|
            0 <= a < vs.len() + 1 && 0 <= b < vs.len() + 1 && a != b implies
            #[trigger] vs.push(verifier@)[a] != #[trigger] vs.push(verifier@)[b] by {
            if a == vs.len() {
                assert(vs.contains(vs[b]));
            } else if b == vs.len() {
                assert(vs.contains(vs[a]));
            }
        }
    }
    Ok(VerifierAdded { admin: ctx.admin, verifier, timestamp })
}

/// Takes `verifier` out of the list, if the signer is the record's admin and
/// the verifier is listed; later entries move up by one. Returns the event to
/// announce, stamped with `timestamp`.
pub fn remove_verifier(ctx: &mut RemoveVerifier, verifier: Identity, timestamp: i64) -> (r: Result<VerifierRemoved, ErrorCode>)
    requires
        old(ctx).state.wf(),
    ensures
        final(ctx).admin == old(ctx).admin,
        final(ctx).state.wf(),
        final(ctx).state@ == after(old(ctx).state@, remove_outcome(old(ctx).state@, old(ctx).admin@, verifier@)),
        match remove_outcome(old(ctx).state@, old(ctx).admin@, verifier@) {
            Ok(_) => r == Ok::<VerifierRemoved, ErrorCode>(
                VerifierRemoved { admin: old(ctx).admin, verifier, timestamp },
            ),
            Err(e) => r == Err::<VerifierRemoved, ErrorCode>(e),
        },
{
    if !ctx.admin.same_as(&ctx.state.admin) {
        return Err(ErrorCode::UnauthorizedAdmin);
    }
    let index = match position_of(&ctx.state.verifiers, &verifier) {
        Some(i) => i,
        None => {
            return Err(ErrorCode::VerifierNotFound);
        },
    };
    let ghost before = ctx.state.verifiers@;
    ctx.state.verifiers.remove(index);
    proof {
        let vs = ids_view(before);
        let i = index as int;
        assert(vs.contains(verifier@));
        lemma_remove_first_at(vs, verifier@, i);
        assert(ids_view(ctx.state.verifiers@) =~= vs.remove(i));
        let ws = vs.remove(i);
        assert forall|a: int, b: int|
            0 <= a < ws.len() && 0 <= b < ws.len() && a != b implies
            #[trigger] ws[a] != #[trigger] ws[b] by {
            let a2 = if a < i { a } else { a + 1 };
            let b2 = if b < i { b } else { b + 1 };
            assert(ws[a] == vs[a2]);
            assert(ws[b] == vs[b2]);
        }
    }
    Ok(VerifierRemoved { admin: ctx.admin, verifier, timestamp })
}

/// The certificate gate: succeeds exactly when the signer is in the verifier
/// list, and then returns the event to announce, with the item's fields as
/// given and stamped with `timestamp`. The record is only read.
pub fn mint_auth_nft(
    ctx: &MintAuthNft,
    product_id: String,
    brand: String,
    category: String,
    metadata_uri: String,
    timestamp: i64,
) -> (r: Result<AuthNftMinted, ErrorCode>)
    ensures
        ctx.state@.verifiers.contains(ctx.verifier@) ==> r == Ok::<AuthNftMinted, ErrorCode>(
            AuthNftMinted {
                verifier: ctx.verifier,
                owner: ctx.owner,
                product_id,
                brand,
                category,
                metadata_uri,
                timestamp,
            },
        ),
        !ctx.state@.verifiers.contains(ctx.verifier@) ==> r == Err::<AuthNftMinted, ErrorCode>(
            ErrorCode::UnauthorizedVerifier,
        ),
{
    if !ctx.state.is_verifier(&ctx.verifier) {
        return Err(ErrorCode::UnauthorizedVerifier);
    }
    Ok(
        AuthNftMinted {
            verifier: ctx.verifier,
            owner: ctx.owner,
            product_id,
            brand,
            category,
            metadata_uri,
            timestamp,
        },
    )
}

/// Index of the first identity of `ids` equal to `id`.
fn position_of(ids: &Vec<Identity>, id: &Identity) -> (r: Option<usize>)
    ensures
        match r {
            Some(i) => {
                &&& i < ids@.len()
                &&& ids_view(ids@)[i as int] == id@
                &&& forall|j: int| 0 <= j < i ==> ids_view(ids@)[j] != id@
            },
            None => !ids_view(ids@).contains(id@),
        },
{
    let mut i: usize = 0;
    while i < ids.len()
        invariant
            i <= ids@.len(),
            forall|j: int| 0 <= j < i ==> ids_view(ids@)[j] != id@,
        decreases ids@.len() - i,
    {
        if ids[i].same_as(id) {
            return Some(i);
        }
        i = i + 1;
    }
    None
}

} // verus!
