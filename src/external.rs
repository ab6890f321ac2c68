use solana_program::program_pack::Pack;
use vstd::prelude::*;

verus! {

/// The address that `Pubkey::create_program_address` derives from the seeds
/// `[seed, [bump]]` and a program id, or `None` where the derivation lands on
/// the curve and is refused.
pub uninterp spec fn derived_address(seed: Seq<u8>, bump: u8, program: Seq<u8>) -> Option<Seq<u8>>;

/// Relies on solana_program's `Pubkey::create_program_address`: the result
/// depends on the seeds and the program id alone. It also fails for a seed
/// longer than 32 bytes, which `requires` leaves out.
#[verifier::external_body]
pub(crate) fn create_program_address(seed: &[u8], bump: u8, program_id: &[u8; 32]) -> (r: Option<
    [u8; 32],
>)
    requires
        seed@.len() <= 32,
    ensures
        r is None ==> derived_address(seed@, bump, program_id@) is None,
        r matches Some(k) ==> derived_address(seed@, bump, program_id@) == Some(k@),
{
    let program = solana_program::pubkey::Pubkey::new_from_array(*program_id);
    let bump_seed = [bump];
    solana_program::pubkey::Pubkey::create_program_address(&[seed, &bump_seed], &program).ok().map(
        |k| k.to_bytes(),
    )
}

/// Whether four bytes at `at` are an optional value's tag: none or some.
pub open spec fn is_option_tag(d: Seq<u8>, at: int) -> bool {
    d[at + 1] == 0 && d[at + 2] == 0 && d[at + 3] == 0 && (d[at] == 0 || d[at] == 1)
}

/// The owner recorded in a token account's bytes: 165 bytes, an
/// initialized or frozen state at byte 108, well-formed optional tags for
/// the delegate (72), the native amount (109) and the close authority (129),
/// and the owner at bytes 32 to 64. Any other buffer holds no token account.
pub open spec fn token_holder(d: Seq<u8>) -> Option<Seq<u8>> {
    if d.len() == 165 && (d[108] == 1 || d[108] == 2) && is_option_tag(d, 72) && is_option_tag(
        d,
        109,
    ) && is_option_tag(d, 129) {
        Some(d.subrange(32, 64))
    } else {
        None
    }
}

/// Relies on spl_token's `Account::unpack`: it accepts exactly the buffers
/// that `token_holder` describes and reads the owner from bytes 32 to 64.
#[verifier::external_body]
pub(crate) fn token_account_owner(data: &[u8]) -> (r: Option<[u8; 32]>)
    ensures
        match r {
            Some(o) => token_holder(data@) == Some(o@),
            None => token_holder(data@) is None,
        },
{
    spl_token::state::Account::unpack(data).ok().map(|a| a.owner.to_bytes())
}

} // verus!
