use vstd::prelude::*;

verus! {

/// The hardware id derived from a system id: what the seeded generator
/// yields for that seed. The derivation is a pure function of the seed, so
/// the same system id always names the same hardware id.
pub uninterp spec fn spec_hardware_id(system_id: Seq<char>) -> Seq<char>;

/// Generates the hardware id for the provided system id.
///
/// The system id can be any identifier for the system, so long as it is
/// predictable and consistent per device: it seeds the generator, so any
/// change to it yields a different hardware id, and the same system id
/// always yields the same one. The service uses the hardware id to
/// recognise the client on subsequent logins.
///
/// Relies on rand_seeder's Seeder and rand's Alphanumeric sampling: the
/// seeded generator is deterministic in its seed, and sampling with length
/// 32 yields exactly 32 alphanumeric characters.
#[verifier::external_body]
pub fn generate_hardware_id(system_id: &str) -> (r: String)
    ensures
        r@ == spec_hardware_id(system_id@),
        r@.len() == 32,
{
    let mut rng: rand::rngs::StdRng = rand_seeder::Seeder::from(system_id).into_rng();

    rand::distr::SampleString::sample_string(&rand::distr::Alphanumeric, &mut rng, 32)
}

} // verus!
