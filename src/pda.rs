use vstd::prelude::*;
use solana_program::pubkey::Pubkey;

verus! {

/// The address that the platform derives from `seeds` under `program`,
/// with the bump byte appended to the seeds to reach it; `None` where no
/// bump byte gives an address off the signing curve.
pub uninterp spec fn program_address(seeds: Seq<Seq<u8>>, program: Seq<u8>) -> Option<(Seq<u8>, u8)>;

/// Relies on `Pubkey::try_find_program_address`: a pure function of the seeds
/// and the program identity (a hash search over bump bytes), which returns
/// `None` instead of panicking where no bump byte fits.
#[verifier::external_body]
fn try_find_program_address(label: &[u8], owner: &[u8; 32], program: &[u8; 32]) -> (r: Option<([u8; 32], u8)>)
    ensures
        match r {
            Some(p) => program_address(seq![label@, owner@], program@) == Some((p.0@, p.1)),
            None => program_address(seq![label@, owner@], program@) is None,
        },
{
    Pubkey::try_find_program_address(&[label, &owner[..]], &Pubkey::new_from_array(*program))
        .map(|(k, b)| (k.to_bytes(), b))
}

/// The record kinds whose addresses are derived per owner.
#[derive(Clone, Copy, Debug, PartialEq, Eq, Structural)]
pub enum Label {
    Address,
    Profile,
}

/// The seed bytes of a label: `"address"` or `"profile"`.
pub open spec fn label_bytes(l: Label) -> Seq<u8> {
    match l {
        Label::Address => seq![97u8, 100, 100, 114, 101, 115, 115],
        Label::Profile => seq![112u8, 114, 111, 102, 105, 108, 101],
    }
}

impl Label {
    /// The seed bytes of this label.
    pub fn bytes(&self) -> (r: Vec<u8>)
        ensures
            r@ == label_bytes(*self),
    {
        let r: Vec<u8> = match self {
            Label::Address => vec![97u8, 100, 100, 114, 101, 115, 115],
            Label::Profile => vec![112u8, 114, 111, 102, 105, 108, 101],
        };
        assert(r@ =~= label_bytes(*self));
        r
    }
}

/// The record address and bump byte for `label` and `owner` under `program`.
pub open spec fn derive_spec(label: Label, owner: [u8; 32], program: [u8; 32]) -> Option<(Seq<u8>, u8)> {
    program_address(seq![label_bytes(label), owner@], program@)
}

/// Proof of authority over a derived address: the exact seed material that
/// produced it, presented in place of a signature.
#[derive(Clone, Copy, Debug)]
pub struct AuthorityProof {
    pub label: Label,
    pub owner: [u8; 32],
    pub bump: u8,
}

/// Derives the address of `owner`'s record of kind `label` under `program`,
/// together with the bump byte that completes its seeds.
pub fn derive_address(label: Label, owner: &[u8; 32], program: &[u8; 32]) -> (r: Option<([u8; 32], u8)>)
    ensures
        match r {
            Some(p) => derive_spec(label, *owner, *program) == Some((p.0@, p.1)),
            None => derive_spec(label, *owner, *program) is None,
        },
{
    let l = label.bytes();
    try_find_program_address(l.as_slice(), owner, program)
}

/// Derivation is deterministic: two derivations from the same label, owner
/// and program identity give the same address and the same bump byte.
pub proof fn lemma_derive_deterministic(
    label: Label,
    owner: [u8; 32],
    program: [u8; 32],
    r1: Option<(Seq<u8>, u8)>,
    r2: Option<(Seq<u8>, u8)>,
)
    requires
        r1 == derive_spec(label, owner, program),
        r2 == derive_spec(label, owner, program),
    ensures
        r1 == r2,
{
}

} // verus!
