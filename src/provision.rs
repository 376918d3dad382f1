use vstd::prelude::*;
use crate::address::{associated_address, associated_address_of, same_key};
use crate::error::{FailureKind, PipelineError};

verus! {

/// How a holding account came to be there.
#[derive(Clone, Copy, Debug, PartialEq, Eq, Structural)]
pub enum Provisioned {
    Existed,
    Created,
}

/// What the provisioner asks for next.
#[derive(Clone, Copy, Debug, PartialEq, Eq, Structural)]
pub enum ProvisionStep {
    /// The account is known to exist; nothing further is needed.
    Ready(Provisioned),
    /// Ask the ledger whether the holding account exists.
    LookUp,
    /// Build, sign and submit the account-creation transaction, then wait
    /// for its confirmation.
    Create,
}

/// First step of `ensure` for an account whose address is `address`.
pub open spec fn begin_spec(known: Set<Seq<u8>>, address: Seq<u8>) -> ProvisionStep {
    if known.contains(address) {
        ProvisionStep::Ready(Provisioned::Existed)
    } else {
        ProvisionStep::LookUp
    }
}

/// The accounts known to exist after the ledger answered a lookup.
pub open spec fn known_after_lookup(known: Set<Seq<u8>>, address: Seq<u8>, found: bool) -> Set<Seq<u8>> {
    if found {
        known.insert(address)
    } else {
        known
    }
}

/// The step after the ledger answered a lookup.
pub open spec fn lookup_step_spec(found: bool) -> ProvisionStep {
    if found {
        ProvisionStep::Ready(Provisioned::Existed)
    } else {
        ProvisionStep::Create
    }
}

/// The accounts known to exist after a creation was submitted and either
/// confirmed (`failure` is `None`) or not.
pub open spec fn known_after_create(
    known: Set<Seq<u8>>,
    address: Seq<u8>,
    failure: Option<FailureKind>,
) -> Set<Seq<u8>> {
    if failure is None {
        known.insert(address)
    } else {
        known
    }
}

/// The outcome of an `ensure` that submitted a creation.
pub open spec fn create_result_spec(failure: Option<FailureKind>) -> Result<Provisioned, PipelineError> {
    match failure {
        None => Ok(Provisioned::Created),
        Some(FailureKind::Rejected) => Err(PipelineError::AccountProvisionFailed),
        Some(FailureKind::TimedOut) => Err(PipelineError::ConfirmationTimeout),
    }
}

/// The known accounts after one whole `ensure` of `address`, given what
/// the ledger answered to the lookup and to the creation, if they are asked.
pub open spec fn known_after_ensure(
    known: Set<Seq<u8>>,
    address: Seq<u8>,
    found: bool,
    failure: Option<FailureKind>,
) -> Set<Seq<u8>> {
    if begin_spec(known, address) != ProvisionStep::LookUp {
        known
    } else if lookup_step_spec(found) != ProvisionStep::Create {
        known_after_lookup(known, address, found)
    } else {
        known_after_create(known, address, failure)
    }
}

/// The number of account-creation submissions one whole `ensure` makes.
pub open spec fn creations_of_ensure(known: Set<Seq<u8>>, address: Seq<u8>, found: bool) -> nat {
    if begin_spec(known, address) == ProvisionStep::LookUp && lookup_step_spec(found)
        == ProvisionStep::Create {
        1
    } else {
        0
    }
}

/// Ensures that the holding accounts of one signing identity exist, and
/// remembers every account once it has been observed to exist, so that it
/// is never looked up or created again.
pub struct Provisioner {
    owner: [u8; 32],
    known: Vec<[u8; 32]>,
}

impl Provisioner {
    /// The public key of the identity that owns and pays for the accounts.
    pub closed spec fn owner_spec(&self) -> Seq<u8> {
        self.owner@
    }

    /// The holding accounts observed to exist.
    pub closed spec fn known_spec(&self) -> Set<Seq<u8>> {
        Set::new(|a: Seq<u8>| exists|i: int| 0 <= i < self.known@.len() && #[trigger] self.known@[i]@ == a)
    }

    pub open spec fn address_spec(&self, asset: Seq<u8>) -> Seq<u8> {
        associated_address_of(self.owner_spec(), asset)
    }

    pub fn new(owner: [u8; 32]) -> (r: Provisioner)
        ensures
            r.owner_spec() == owner@,
            r.known_spec() == Set::<Seq<u8>>::empty(),
    {
        let r = Provisioner { owner, known: Vec::new() };
        assert(r.known_spec() =~= Set::<Seq<u8>>::empty());
        r
    }

    pub fn owner(&self) -> (r: [u8; 32])
        ensures
            r@ == self.owner_spec(),
    {
        self.owner
    }

    /// The holding account of `asset` for this identity.
    pub fn holding_address(&self, asset: &[u8; 32]) -> (r: [u8; 32])
        ensures
            r@ == self.address_spec(asset@),
    {
        associated_address(&self.owner, asset)
    }

    fn knows(&self, address: &[u8; 32]) -> (r: bool)
        ensures
            r == self.known_spec().contains(address@),
    {
        let mut i: usize = 0;
        while i < self.known.len()
            invariant
                0 <= i <= self.known@.len(),
                forall|j: int| 0 <= j < i ==> self.known@[j]@ != address@,
            decreases self.known@.len() - i,
        {
            if same_key(&self.known[i], address) {
                assert(self.known_spec().contains(address@));
                return true;
            }
            i = i + 1;
        }
        false
    }

    fn remember(&mut self, address: [u8; 32])
        ensures
            final(self).owner_spec() == old(self).owner_spec(),
            final(self).known_spec() == old(self).known_spec().insert(address@),
    {
        let ghost before = self.known@;
        self.known.push(address);
        assert forall|a: Seq<u8>| #[trigger] self.known_spec().contains(a) == old(self).known_spec().insert(address@).contains(a) by {
            if a == address@ {
                assert(self.known@[before.len() as int]@ == a);
            }
            if old(self).known_spec().contains(a) {
                let i = choose|i: int| 0 <= i < before.len() && #[trigger] before[i]@ == a;
                assert(self.known@[i]@ == a);
            }
            if self.known_spec().contains(a) && a != address@ {
                let i = choose|i: int| 0 <= i < self.known@.len() && #[trigger] self.known@[i]@ == a;
                assert(before[i]@ == a);
            }
        }
        assert(self.known_spec() =~= old(self).known_spec().insert(address@));
    }

    /// First step of `ensure(identity, asset)`: an account observed to exist
    /// before costs nothing; any other is looked up.
    pub fn begin(&self, asset: &[u8; 32]) -> (r: ProvisionStep)
        ensures
            r == begin_spec(self.known_spec(), self.address_spec(asset@)),
    {
        let address = self.holding_address(asset);
        if self.knows(&address) {
            ProvisionStep::Ready(Provisioned::Existed)
        } else {
            ProvisionStep::LookUp
        }
    }

    /// Takes the ledger's answer to the lookup: an existing account is
    /// remembered, an absent one must be created.
    pub fn on_lookup(&mut self, asset: &[u8; 32], found: bool) -> (r: ProvisionStep)
        ensures
            final(self).owner_spec() == old(self).owner_spec(),
            final(self).known_spec() == known_after_lookup(
                old(self).known_spec(),
                old(self).address_spec(asset@),
                found,
            ),
            r == lookup_step_spec(found),
    {
        if found {
            let address = self.holding_address(asset);
            self.remember(address);
            ProvisionStep::Ready(Provisioned::Existed)
        } else {
            ProvisionStep::Create
        }
    }

    /// Takes the outcome of the creation: a confirmed one is remembered; a
    /// refused one fails the cycle; an unconfirmed one leaves the account
    /// unknown, so that the next cycle looks it up again.
    pub fn on_created(&mut self, asset: &[u8; 32], failure: Option<FailureKind>) -> (r: Result<
        Provisioned,
        PipelineError,
    >)
        ensures
            final(self).owner_spec() == old(self).owner_spec(),
            final(self).known_spec() == known_after_create(
                old(self).known_spec(),
                old(self).address_spec(asset@),
                failure,
            ),
            r == create_result_spec(failure),
    {
        match failure {
            None => {
                let address = self.holding_address(asset);
                self.remember(address);
                Ok(Provisioned::Created)
            },
            Some(FailureKind::Rejected) => Err(PipelineError::AccountProvisionFailed),
            Some(FailureKind::TimedOut) => Err(PipelineError::ConfirmationTimeout),
        }
    }
}

/// Ensuring the same holding account twice submits at most one creation,
/// whatever the ledger answers, unless the first `ensure` submitted a
/// creation that was refused or never confirmed.
pub proof fn lemma_ensure_creates_at_most_once(
    known: Set<Seq<u8>>,
    address: Seq<u8>,
    found1: bool,
    failure1: Option<FailureKind>,
    found2: bool,
)
    requires
        creations_of_ensure(known, address, found1) == 1 ==> failure1 is None,
    ensures
        creations_of_ensure(known, address, found1) + creations_of_ensure(
            known_after_ensure(known, address, found1, failure1),
            address,
            found2,
        ) <= 1,
{
}

} // verus!
